use script_host::cache::SymbolCache;
use script_host::diag::{err_trace, BasicError};
use script_host::dispatch::{resolve_entry_points, Action, State, KEY_ESCAPE};
use script_host::scope::{get_opt_callback, hook_name_of, EventKind, Globals};
use script_host::text::decimal_string;
use script_host::value::{checkargc, converr, render, Value};

fn globals_with(entries: &[(&str, Value)]) -> Globals {
    let mut g = Globals::new();
    for (name, value) in entries {
        assert!(g.define(name.to_string(), value.clone()));
    }
    g
}

#[test]
fn decimal_rendering_is_exact() {
    assert_eq!(decimal_string(0).as_str(), "0");
    assert_eq!(decimal_string(7).as_str(), "7");
    assert_eq!(decimal_string(36).as_str(), "36");
    assert_eq!(decimal_string(4295).as_str(), "4295");
    assert_eq!(decimal_string(18446744073709551615).as_str(), "18446744073709551615");
}

#[test]
fn render_values() {
    assert_eq!(render(&Value::Nil).as_str(), "nil");
    assert_eq!(render(&Value::Bool(true)).as_str(), "true");
    assert_eq!(render(&Value::Bool(false)).as_str(), "false");
    assert_eq!(render(&Value::Str("oops".to_string())).as_str(), "oops");
    assert_eq!(render(&Value::Func(5)).as_str(), "<function 5>");
}

#[test]
fn checkargc_accepts_exact_arity() {
    let args = vec![Value::Nil, Value::Bool(true)];
    assert!(checkargc(&args, 2).is_ok());
}

#[test]
fn checkargc_rejects_wrong_arity_with_both_counts() {
    let args: Vec<Value> = Vec::new();
    match checkargc(&args, 2) {
        Err(Value::Str(m)) => assert_eq!(m.as_str(), "Expected 2 args but got 0"),
        other => panic!("expected an arity failure, got {:?}", other),
    }
}

#[test]
fn converr_wraps_rendered_errors() {
    assert_eq!(converr::<u32>(Ok(3)), Ok(3));
    assert_eq!(converr::<u32>(Err("boom".to_string())), Err(Value::Str("boom".to_string())));
}

#[test]
fn translate_same_code_twice_formats_once() {
    let mut c = SymbolCache::new();
    assert_eq!(c.formatted_count(), 0);
    let first = c.translate(10);
    assert_eq!(c.formatted_count(), 1);
    let second = c.translate(10);
    assert_eq!(c.formatted_count(), 1);
    assert_eq!(first, second);
    assert_eq!(first.as_str(), "Key10");
    let other = c.translate(2);
    assert_eq!(c.formatted_count(), 2);
    assert_eq!(other.as_str(), "Key2");
}

#[test]
fn hook_names_follow_the_convention() {
    let module = "M".to_string();
    assert_eq!(hook_name_of(&module, EventKind::Update).as_str(), "M#Update");
    assert_eq!(hook_name_of(&module, EventKind::Draw).as_str(), "M#Draw");
    assert_eq!(hook_name_of(&module, EventKind::KeyDown).as_str(), "M#KeyDown");
    assert_eq!(hook_name_of(&module, EventKind::KeyUp).as_str(), "M#KeyUp");
    assert_eq!(hook_name_of(&module, EventKind::TextInput).as_str(), "M#TextInput");
}

#[test]
fn get_opt_callback_resolves_absent_bound_and_misbound() {
    let g = globals_with(&[("M#Draw", Value::Func(4)), ("x", Value::Bool(true))]);
    let trace: Vec<String> = vec!["top".to_string()];
    assert_eq!(get_opt_callback(&g, &trace, &"M#Update".to_string()), Ok(None));
    assert_eq!(get_opt_callback(&g, &trace, &"M#Draw".to_string()), Ok(Some(4)));
    match get_opt_callback(&g, &trace, &"x".to_string()) {
        Err(e) => {
            assert_eq!(e.message.as_str(), "expected a function but got true");
            assert_eq!(e.marks, vec!["top".to_string()]);
            assert!(e.help.is_none());
        },
        other => panic!("expected a bind error, got {:?}", other.map(|_| ())),
    }
}

#[test]
fn entry_point_binding_round_trip() {
    // A module defining only "M#KeyUp" as a callable: resolving all five
    // entry points binds exactly that one.
    let g = globals_with(&[("M#KeyUp", Value::Func(9))]);
    let trace: Vec<String> = Vec::new();
    let mut st = resolve_entry_points(&g, &trace, &"M".to_string()).unwrap();
    assert_eq!(st.update, None);
    assert_eq!(st.draw, None);
    assert_eq!(st.keydown, None);
    assert_eq!(st.keyup, Some(9));
    assert_eq!(st.textinput, None);

    // The four absent hooks make their events no-ops.
    assert!(matches!(st.update(), Action::Idle));
    assert!(matches!(st.draw(), Action::Idle));
    assert!(matches!(st.key_down_event(10, false), Action::Idle));
    assert!(matches!(st.text_input_event('a'), Action::Idle));

    // The one bound hook fires with the symbolic name.
    match st.key_up_event(10) {
        Action::Call { callback, args } => {
            assert_eq!(callback, 9);
            assert_eq!(args, vec![Value::Str("Key10".to_string())]);
        },
        _ => panic!("expected the keyup callback to fire"),
    }
}

#[test]
fn resolve_reports_the_misbound_hook() {
    let g = globals_with(&[("M#Draw", Value::Bool(true)), ("M#KeyUp", Value::Func(1))]);
    let trace: Vec<String> = vec!["boot".to_string()];
    match resolve_entry_points(&g, &trace, &"M".to_string()) {
        Err(e) => {
            assert_eq!(e.message.as_str(), "expected a function but got true");
            assert_eq!(e.marks, vec!["boot".to_string()]);
        },
        Ok(_) => panic!("a non-callable hook binding must fail resolution"),
    }
}

#[test]
fn absent_draw_callback_is_silent() {
    let mut st = State::new(Some(1), None, None, None, None);
    assert!(matches!(st.draw(), Action::Idle));
    assert!(!st.in_call);
}

#[test]
fn draw_presents_only_on_success() {
    let mut st = State::new(None, Some(2), None, None, None);
    match st.draw() {
        Action::Call { callback, args } => {
            assert_eq!(callback, 2);
            assert!(args.is_empty());
        },
        _ => panic!("expected the draw callback to fire"),
    }
    let trace: Vec<String> = Vec::new();
    let present = st.finish_call(&trace, Ok(Value::Nil)).unwrap();
    assert!(present);

    // An update call never asks for a frame presentation.
    let mut st = State::new(Some(1), None, None, None, None);
    assert!(matches!(st.update(), Action::Call { .. }));
    let present = st.finish_call(&trace, Ok(Value::Nil)).unwrap();
    assert!(!present);
}

#[test]
fn escape_short_circuits_with_and_without_a_callback() {
    let mut bound = State::new(None, None, Some(3), None, None);
    assert!(matches!(bound.key_down_event(KEY_ESCAPE, false), Action::Quit));
    assert!(!bound.in_call);
    assert_eq!(bound.keycode_cache.formatted_count(), 0);

    let mut unbound = State::new(None, None, None, None, None);
    assert!(matches!(unbound.key_down_event(KEY_ESCAPE, true), Action::Quit));
}

#[test]
fn keydown_passes_name_and_repeat_flag() {
    let mut st = State::new(None, None, Some(3), None, None);
    match st.key_down_event(10, true) {
        Action::Call { callback, args } => {
            assert_eq!(callback, 3);
            assert_eq!(args, vec![Value::Str("Key10".to_string()), Value::Bool(true)]);
        },
        _ => panic!("expected the keydown callback to fire"),
    }
}

#[test]
fn text_input_passes_one_character_string() {
    let mut st = State::new(None, None, None, None, Some(6));
    match st.text_input_event('q') {
        Action::Call { callback, args } => {
            assert_eq!(callback, 6);
            assert_eq!(args, vec![Value::Str("q".to_string())]);
        },
        _ => panic!("expected the textinput callback to fire"),
    }
}

#[test]
fn key_up_after_key_down_translate_consistently() {
    let mut st = State::new(None, None, Some(3), Some(4), None);
    let trace: Vec<String> = Vec::new();
    let down_name = match st.key_down_event(77, false) {
        Action::Call { args, .. } => match &args[0] {
            Value::Str(s) => s.clone(),
            _ => panic!("the first keydown argument must be the symbolic name"),
        },
        _ => panic!("expected the keydown callback to fire"),
    };
    st.finish_call(&trace, Ok(Value::Nil)).unwrap();
    let up_name = match st.key_up_event(77) {
        Action::Call { args, .. } => match &args[0] {
            Value::Str(s) => s.clone(),
            _ => panic!("the keyup argument must be the symbolic name"),
        },
        _ => panic!("expected the keyup callback to fire"),
    };
    assert_eq!(down_name, up_name);
    assert_eq!(st.keycode_cache.formatted_count(), 1);
}

#[test]
fn no_event_is_handled_while_a_call_is_in_flight() {
    let mut st = State::new(Some(1), Some(2), Some(3), Some(4), Some(5));
    assert!(matches!(st.update(), Action::Call { .. }));
    // A second apply attempted mid-call is rejected, never interleaved.
    assert!(matches!(st.update(), Action::Rejected));
    assert!(matches!(st.draw(), Action::Rejected));
    assert!(matches!(st.key_down_event(10, false), Action::Rejected));
    assert!(matches!(st.key_up_event(10), Action::Rejected));
    assert!(matches!(st.text_input_event('x'), Action::Rejected));
    assert!(matches!(st.key_down_event(KEY_ESCAPE, false), Action::Rejected));

    let trace: Vec<String> = Vec::new();
    st.finish_call(&trace, Ok(Value::Nil)).unwrap();
    // Once the call has completed, dispatch resumes.
    assert!(matches!(st.draw(), Action::Call { .. }));
}

#[test]
fn failing_callback_is_fatal_with_message_and_trace() {
    let mut st = State::new(Some(1), None, None, None, None);
    assert!(matches!(st.update(), Action::Call { .. }));
    let trace = vec!["main.os line 3".to_string(), "helper line 9".to_string()];
    match st.finish_call(&trace, Err(Value::Str("division by zero".to_string()))) {
        Err(e) => {
            assert_eq!(e.message.as_str(), "division by zero");
            assert_eq!(e.marks, trace);
            assert!(e.help.is_none());
            assert_eq!(
                e.format().as_str(),
                "main.os line 3\nhelper line 9\ndivision by zero",
            );
        },
        Ok(_) => panic!("a failing callback must be fatal"),
    }
    assert!(!st.in_call);

    // A depth-zero failure still carries the message, with an empty trace.
    assert!(matches!(st.update(), Action::Call { .. }));
    let empty: Vec<String> = Vec::new();
    match st.finish_call(&empty, Err(Value::Bool(false))) {
        Err(e) => {
            assert_eq!(e.message.as_str(), "false");
            assert!(e.marks.is_empty());
            assert_eq!(e.format().as_str(), "false");
        },
        Ok(_) => panic!("a failing callback must be fatal"),
    }
}

#[test]
fn err_trace_passes_successes_through() {
    let trace = vec!["m".to_string()];
    assert_eq!(err_trace::<u32>(&trace, Ok(17)), Ok(17));
    match err_trace::<u32>(&trace, Err(Value::Func(2))) {
        Err(e) => {
            assert_eq!(e.message.as_str(), "<function 2>");
            assert_eq!(e.marks, trace);
        },
        Ok(_) => panic!("a failure value must become an error record"),
    }
}

#[test]
fn format_appends_help_on_its_own_line() {
    let e = BasicError {
        marks: vec!["m1".to_string()],
        message: "msg".to_string(),
        help: Some("try again".to_string()),
    };
    assert_eq!(e.format().as_str(), "m1\nmsg\ntry again");
}
