//! The event dispatcher: the state holder bound to the host event loop.
//!
//! On each host lifecycle event the dispatcher decides which resolved script
//! callback (if any) must be applied with which arguments; the unverified
//! shell performs the actual virtual-machine call and hands the outcome back
//! through [`State::finish_call`]. At most one call is ever in flight: an
//! event raised while a call is still running is rejected outright.

use vstd::prelude::*;
use crate::cache::{key_name, SymbolCache};
use crate::diag::{err_trace, is_trace_error, BasicError};
use crate::scope::{get_opt_callback, hook_binding, hook_misbound, hook_name_of, EventKind, Globals};
use crate::text::push_char;
use crate::value::Value;

verus! {

/// The raw code of the reserved quit key: a key-down with this code
/// short-circuits dispatch and asks the host loop to terminate.
pub const KEY_ESCAPE: u32 = 36;

/// A host lifecycle event as the shell reports it, on plain values: the raw
/// key code, the auto-repeat flag, the input character.
#[derive(Clone, Copy, PartialEq, Eq, Structural, Debug)]
pub enum Event {
    Update,
    Draw,
    KeyDown { code: u32, repeat: bool },
    KeyUp { code: u32 },
    TextInput { ch: char },
}

/// What the host shell must do after handing an event to the dispatcher.
pub enum Action {
    /// Nothing: no callback is bound for this event.
    Idle,
    /// Terminate the host loop gracefully (the reserved quit key).
    Quit,
    /// The event arrived while a script call was still in flight; the
    /// dispatcher refuses to re-enter the virtual machine.
    Rejected,
    /// Apply the compiled callback `callback` to `args` in the virtual
    /// machine, then report the outcome through `finish_call`.
    Call { callback: u64, args: Vec<Value> },
}

/// The dispatcher: the five optional callback bindings resolved at bootstrap,
/// the symbol cache for key-code translation, and the in-flight flag that
/// keeps script calls strictly one at a time.
pub struct State {
    pub update: Option<u64>,
    pub draw: Option<u64>,
    pub keydown: Option<u64>,
    pub keyup: Option<u64>,
    pub textinput: Option<u64>,
    pub keycode_cache: SymbolCache,
    pub in_call: bool,
    pub pending_present: bool,
}

/// The five bindings are the same in `pre` and `post`.
pub open spec fn bindings_unchanged(pre: State, post: State) -> bool {
    &&& post.update == pre.update
    &&& post.draw == pre.draw
    &&& post.keydown == pre.keydown
    &&& post.keyup == pre.keyup
    &&& post.textinput == pre.textinput
}

/// Whether `a` starts the call of `callback` on exactly the argument views
/// `args` (argument values are compared through their views, since symbolic
/// names are freshly built strings).
pub open spec fn starts_call(a: Action, callback: u64, args: Seq<Value>) -> bool {
    &&& a matches Action::Call { callback: c, args: v }
    &&& c == callback
    &&& v@ == args
}

/// What handling one host event does to the dispatcher, and which action it
/// hands the shell. While a call is in flight every event is rejected and
/// nothing changes. Otherwise: an unbound hook is a silent no-op; the
/// reserved quit key short-circuits key-down dispatch before any translation
/// or script call; key events translate their code through the symbol cache;
/// and a bound hook starts a call with the event's arguments, raising the
/// in-flight flag (with the frame-presentation request pending only for a
/// draw).
pub open spec fn step_spec(pre: State, post: State, e: Event, a: Action) -> bool {
    if pre.in_call {
        a == Action::Rejected && post == pre
    } else {
        match e {
            Event::Update => match pre.update {
                None => a == Action::Idle && post == pre,
                Some(c) => {
                    &&& starts_call(a, c, Seq::empty())
                    &&& bindings_unchanged(pre, post)
                    &&& post.keycode_cache == pre.keycode_cache
                    &&& post.in_call
                    &&& !post.pending_present
                },
            },
            Event::Draw => match pre.draw {
                None => a == Action::Idle && post == pre,
                Some(c) => {
                    &&& starts_call(a, c, Seq::empty())
                    &&& bindings_unchanged(pre, post)
                    &&& post.keycode_cache == pre.keycode_cache
                    &&& post.in_call
                    &&& post.pending_present
                },
            },
            Event::KeyDown { code, repeat } => {
                if code == KEY_ESCAPE {
                    a == Action::Quit && post == pre
                } else {
                    &&& bindings_unchanged(pre, post)
                    &&& SymbolCache::translate_spec(
                        pre.keycode_cache,
                        post.keycode_cache,
                        code,
                        key_name(code),
                    )
                    &&& match pre.keydown {
                        None => {
                            &&& a == Action::Idle
                            &&& !post.in_call
                            &&& post.pending_present == pre.pending_present
                        },
                        Some(c) => {
                            &&& (a matches Action::Call { callback, args } && callback == c
                                && args@.len() == 2 && (args@[0] matches Value::Str(s) && s@
                                == key_name(code)) && args@[1] == Value::Bool(repeat))
                            &&& post.in_call
                            &&& !post.pending_present
                        },
                    }
                }
            },
            Event::KeyUp { code } => {
                &&& bindings_unchanged(pre, post)
                &&& SymbolCache::translate_spec(
                    pre.keycode_cache,
                    post.keycode_cache,
                    code,
                    key_name(code),
                )
                &&& match pre.keyup {
                    None => {
                        &&& a == Action::Idle
                        &&& !post.in_call
                        &&& post.pending_present == pre.pending_present
                    },
                    Some(c) => {
                        &&& (a matches Action::Call { callback, args } && callback == c
                            && args@.len() == 1 && (args@[0] matches Value::Str(s) && s@
                            == key_name(code)))
                        &&& post.in_call
                        &&& !post.pending_present
                    },
                }
            },
            Event::TextInput { ch } => match pre.textinput {
                None => a == Action::Idle && post == pre,
                Some(c) => {
                    &&& (a matches Action::Call { callback, args } && callback == c
                        && args@.len() == 1 && (args@[0] matches Value::Str(s) && s@ == seq![ch]))
                    &&& bindings_unchanged(pre, post)
                    &&& post.keycode_cache == pre.keycode_cache
                    &&& post.in_call
                    &&& !post.pending_present
                },
            },
        }
    }
}

/// What completing the in-flight script call does: the dispatcher returns to
/// idle; a failure becomes an error record built from the failure's rendering
/// and the captured trace; on success the shell learns whether it must
/// present the frame just drawn.
pub open spec fn finish_spec(
    pre: State,
    post: State,
    trace: Seq<Seq<char>>,
    r: Result<Value, Value>,
    o: Result<bool, BasicError>,
) -> bool {
    &&& bindings_unchanged(pre, post)
    &&& post.keycode_cache == pre.keycode_cache
    &&& !post.in_call
    &&& !post.pending_present
    &&& match r {
        Ok(_) => o == Ok::<bool, BasicError>(pre.pending_present),
        Err(v) => o matches Err(e) && is_trace_error(e, trace, v),
    }
}

impl State {
    /// The symbol cache is well formed.
    pub open spec fn wf(self) -> bool {
        self.keycode_cache.wf()
    }

    /// A dispatcher with the given bindings, an empty cache, and no call in
    /// flight.
    pub fn new(
        update: Option<u64>,
        draw: Option<u64>,
        keydown: Option<u64>,
        keyup: Option<u64>,
        textinput: Option<u64>,
    ) -> (s: Self)
        ensures
            s.wf(),
            s.update == update,
            s.draw == draw,
            s.keydown == keydown,
            s.keyup == keyup,
            s.textinput == textinput,
            s.keycode_cache.map@ == Map::<u32, String>::empty(),
            !s.in_call,
            !s.pending_present,
    {
        State {
            update,
            draw,
            keydown,
            keyup,
            textinput,
            keycode_cache: SymbolCache::new(),
            in_call: false,
            pending_present: false,
        }
    }

    /// Handles a frame-update event: runs the update callback when one is
    /// bound, with no arguments.
    pub fn update(&mut self) -> (a: Action)
        requires
            old(self).wf(),
        ensures
            final(self).wf(),
            step_spec(*old(self), *final(self), Event::Update, a),
    {
        if self.in_call {
            return Action::Rejected;
        }
        if let Some(c) = self.update {
            self.in_call = true;
            self.pending_present = false;
            Action::Call { callback: c, args: Vec::new() }
        } else {
            Action::Idle
        }
    }

    /// Handles a frame-render event: runs the draw callback when one is
    /// bound; on its success the shell must present the frame. With no draw
    /// callback the frame is not presented.
    pub fn draw(&mut self) -> (a: Action)
        requires
            old(self).wf(),
        ensures
            final(self).wf(),
            step_spec(*old(self), *final(self), Event::Draw, a),
    {
        if self.in_call {
            return Action::Rejected;
        }
        if let Some(c) = self.draw {
            self.in_call = true;
            self.pending_present = true;
            Action::Call { callback: c, args: Vec::new() }
        } else {
            Action::Idle
        }
    }

    /// Handles a key-press event. The reserved quit key asks the host loop
    /// to terminate, bypassing the script entirely; any other code is
    /// translated to its symbolic name and, when a keydown callback is
    /// bound, handed to it together with the auto-repeat flag.
    pub fn key_down_event(&mut self, code: u32, repeat: bool) -> (a: Action)
        requires
            old(self).wf(),
        ensures
            final(self).wf(),
            step_spec(*old(self), *final(self), Event::KeyDown { code, repeat }, a),
    {
        if self.in_call {
            return Action::Rejected;
        }
        if code == KEY_ESCAPE {
            return Action::Quit;
        }
        let name = self.keycode_cache.translate(code);
        if let Some(c) = self.keydown {
            self.in_call = true;
            self.pending_present = false;
            let mut args: Vec<Value> = Vec::new();
            args.push(Value::Str(name));
            args.push(Value::Bool(repeat));
            Action::Call { callback: c, args }
        } else {
            Action::Idle
        }
    }

    /// Handles a key-release event: translates the code and, when a keyup
    /// callback is bound, hands it the symbolic name.
    pub fn key_up_event(&mut self, code: u32) -> (a: Action)
        requires
            old(self).wf(),
        ensures
            final(self).wf(),
            step_spec(*old(self), *final(self), Event::KeyUp { code }, a),
    {
        if self.in_call {
            return Action::Rejected;
        }
        let name = self.keycode_cache.translate(code);
        if let Some(c) = self.keyup {
            self.in_call = true;
            self.pending_present = false;
            let mut args: Vec<Value> = Vec::new();
            args.push(Value::Str(name));
            Action::Call { callback: c, args }
        } else {
            Action::Idle
        }
    }

    /// Handles a text-input event: when a textinput callback is bound, hands
    /// it the input character as a one-character string.
    pub fn text_input_event(&mut self, ch: char) -> (a: Action)
        requires
            old(self).wf(),
        ensures
            final(self).wf(),
            step_spec(*old(self), *final(self), Event::TextInput { ch }, a),
    {
        if self.in_call {
            return Action::Rejected;
        }
        if let Some(c) = self.textinput {
            self.in_call = true;
            self.pending_present = false;
            let mut s = String::new();
            push_char(&mut s, ch);
            proof {
                assert(s@ =~= seq![ch]);
            }
            let mut args: Vec<Value> = Vec::new();
            args.push(Value::Str(s));
            Action::Call { callback: c, args }
        } else {
            Action::Idle
        }
    }

    /// Completes the in-flight script call with the virtual machine's
    /// outcome and a snapshot of its current call trace. A success returns
    /// whether the shell must present the frame; a failure is funneled
    /// through the uniform error path and is fatal to the caller.
    pub fn finish_call(&mut self, trace: &Vec<String>, r: Result<Value, Value>) -> (o: Result<
        bool,
        BasicError,
    >)
        requires
            old(self).in_call,
            old(self).wf(),
        ensures
            final(self).wf(),
            finish_spec(*old(self), *final(self), trace.deep_view(), r, o),
    {
        self.in_call = false;
        let present = self.pending_present;
        self.pending_present = false;
        match err_trace(trace, r) {
            Ok(_) => Ok(present),
            Err(e) => Err(e),
        }
    }
}

/// Resolves the five optional entry points of `module_name` in the executed
/// module's scope and builds the dispatcher around them. A hook name that is
/// absent stays unbound; one bound to a non-callable value is a fatal bind
/// error — the first such hook, in the fixed order update, draw, keydown,
/// keyup, textinput, is reported.
pub fn resolve_entry_points(globals: &Globals, trace: &Vec<String>, module_name: &String) -> (r:
    Result<State, BasicError>)
    requires
        globals.wf(),
    ensures
        r is Ok <==> {
            &&& !hook_misbound(*globals, module_name@, EventKind::Update)
            &&& !hook_misbound(*globals, module_name@, EventKind::Draw)
            &&& !hook_misbound(*globals, module_name@, EventKind::KeyDown)
            &&& !hook_misbound(*globals, module_name@, EventKind::KeyUp)
            &&& !hook_misbound(*globals, module_name@, EventKind::TextInput)
        },
        r matches Ok(st) ==> {
            &&& st.update == hook_binding(*globals, module_name@, EventKind::Update)
            &&& st.draw == hook_binding(*globals, module_name@, EventKind::Draw)
            &&& st.keydown == hook_binding(*globals, module_name@, EventKind::KeyDown)
            &&& st.keyup == hook_binding(*globals, module_name@, EventKind::KeyUp)
            &&& st.textinput == hook_binding(*globals, module_name@, EventKind::TextInput)
            &&& st.keycode_cache.map@ == Map::<u32, String>::empty()
            &&& !st.in_call
            &&& !st.pending_present
            &&& st.wf()
        },
        r matches Err(e) ==> crate::scope::is_bind_error(
            e,
            trace.deep_view(),
            first_misbound_value(*globals, module_name@),
        ),
{
    let update = get_opt_callback(globals, trace, &hook_name_of(module_name, EventKind::Update))?;
    let draw = get_opt_callback(globals, trace, &hook_name_of(module_name, EventKind::Draw))?;
    let keydown = get_opt_callback(
        globals,
        trace,
        &hook_name_of(module_name, EventKind::KeyDown),
    )?;
    let keyup = get_opt_callback(globals, trace, &hook_name_of(module_name, EventKind::KeyUp))?;
    let textinput = get_opt_callback(
        globals,
        trace,
        &hook_name_of(module_name, EventKind::TextInput),
    )?;
    Ok(State::new(update, draw, keydown, keyup, textinput))
}

/// The non-callable value bound to the first misbound hook, in the fixed
/// resolution order (meaningful when some hook is misbound).
pub open spec fn first_misbound_value(g: Globals, module: Seq<char>) -> Value {
    if hook_misbound(g, module, EventKind::Update) {
        g.lookup(crate::scope::hook_name(module, EventKind::Update))->Some_0
    } else if hook_misbound(g, module, EventKind::Draw) {
        g.lookup(crate::scope::hook_name(module, EventKind::Draw))->Some_0
    } else if hook_misbound(g, module, EventKind::KeyDown) {
        g.lookup(crate::scope::hook_name(module, EventKind::KeyDown))->Some_0
    } else if hook_misbound(g, module, EventKind::KeyUp) {
        g.lookup(crate::scope::hook_name(module, EventKind::KeyUp))->Some_0
    } else {
        g.lookup(crate::scope::hook_name(module, EventKind::TextInput))->Some_0
    }
}

/// Law: while a script call is in flight, every further host event is
/// rejected and leaves the dispatcher untouched — an event handler is never
/// re-entered and two script calls never interleave.
pub proof fn lemma_single_flight(
    pre: State,
    mid: State,
    post: State,
    e1: Event,
    e2: Event,
    a1: Action,
    a2: Action,
)
    requires
        step_spec(pre, mid, e1, a1),
        a1 is Call,
        step_spec(mid, post, e2, a2),
    ensures
        a2 == Action::Rejected,
        post == mid,
{
}

/// Law: a key-down event with the reserved quit code never invokes the
/// keydown callback and always signals loop termination, whether or not a
/// keydown callback is bound; it does not even touch the symbol cache.
pub proof fn lemma_escape_short_circuit(pre: State, post: State, repeat: bool, a: Action)
    requires
        !pre.in_call,
        step_spec(pre, post, Event::KeyDown { code: KEY_ESCAPE, repeat }, a),
    ensures
        a == Action::Quit,
        post == pre,
{
}

/// Law: when no draw callback is bound, a draw event causes no script call,
/// no state change, and therefore no frame presentation.
pub proof fn lemma_absent_draw_is_silent(pre: State, post: State, a: Action)
    requires
        !pre.in_call,
        pre.draw is None,
        step_spec(pre, post, Event::Draw, a),
    ensures
        a == Action::Idle,
        post == pre,
{
}

/// Law: a failing script call always surfaces as an error report whose
/// message is the failure's rendering and whose marks are the whole captured
/// trace; in particular a failure at nested call depth (a non-empty trace)
/// always carries a non-empty trace, and the report reaches the caller as an
/// error, never silently.
pub proof fn lemma_fatal_propagation(
    pre: State,
    post: State,
    trace: Seq<Seq<char>>,
    f: Value,
    o: Result<bool, BasicError>,
)
    requires
        finish_spec(pre, post, trace, Result::<Value, Value>::Err(f), o),
    ensures
        o matches Err(e) && e.message@ == crate::value::render_spec(f),
        o matches Err(e) && e.marks.deep_view() == trace,
        trace.len() >= 1 ==> (o matches Err(e) && e.marks@.len() >= 1),
{
}

/// Law: pressing and then releasing the same raw code (with the completed
/// script call in between) hands the script the identical symbolic name in
/// both calls.
pub proof fn lemma_key_round_trip(
    pre: State,
    s1: State,
    s2: State,
    s3: State,
    code: u32,
    repeat: bool,
    a1: Action,
    a3: Action,
    trace: Seq<Seq<char>>,
    r: Result<Value, Value>,
    o: Result<bool, BasicError>,
)
    requires
        !pre.in_call,
        code != KEY_ESCAPE,
        step_spec(pre, s1, Event::KeyDown { code, repeat }, a1),
        finish_spec(s1, s2, trace, r, o),
        step_spec(s2, s3, Event::KeyUp { code }, a3),
        a1 is Call,
        a3 is Call,
    ensures
        a1->args@[0] matches Value::Str(n1) && n1@ == key_name(code),
        a3->args@[0] matches Value::Str(n2) && n2@ == key_name(code),
{
}

} // verus!
