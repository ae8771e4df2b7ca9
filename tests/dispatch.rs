use raycast_rust_runtime::{
    delayed_greeting, greeting, greetings, marshal, optionals, pick_color,
    finish_delayed_greeting, serialize_result_to_json, Arg, Color, Command, Param, ParamKind, Step,
    JsonValue, RaycastError, RaycastExecutor, RaycastFunction,
};

fn text(s: &str) -> JsonValue {
    JsonValue::Str(s.to_string())
}

fn number(s: &str) -> JsonValue {
    JsonValue::Number(s.to_string())
}

fn run(reg: &RaycastExecutor, name: &str, args: Vec<JsonValue>) -> Result<JsonValue, RaycastError> {
    match reg.execute(name, args) {
        Step::Done(r) => r,
        other => panic!("unexpected {:?}", other),
    }
}

#[test]
fn greeting_formal_end_to_end() {
    let reg = RaycastExecutor::standard();
    let r = run(&reg, "greeting", vec![text("Ada"), JsonValue::Bool(true)]);
    assert!(matches!(r, Ok(JsonValue::Str(ref s)) if s == "Hello Mr/Ms Ada!"));
}

#[test]
fn greeting_informal_end_to_end() {
    let reg = RaycastExecutor::standard();
    let r = run(&reg, "greeting", vec![text("Ada"), JsonValue::Bool(false)]);
    assert!(matches!(r, Ok(JsonValue::Str(ref s)) if s == "Hello Ada!"));
}

#[test]
fn greeting_too_few_arguments() {
    let reg = RaycastExecutor::standard();
    let r = run(&reg, "greeting", vec![text("Ada")]);
    assert_eq!(
        r.unwrap_err(),
        RaycastError::ArgumentCountMismatch {
            function: "greeting".to_string(),
            expected: 2,
            actual: 1
        }
    );
}

#[test]
fn greeting_too_many_arguments() {
    let reg = RaycastExecutor::standard();
    let r = run(&reg, 
        "greeting",
        vec![text("Ada"), JsonValue::Bool(true), JsonValue::Null],
    );
    assert_eq!(
        r.unwrap_err(),
        RaycastError::ArgumentCountMismatch {
            function: "greeting".to_string(),
            expected: 2,
            actual: 3
        }
    );
}

#[test]
fn noop_with_an_argument_is_a_count_mismatch() {
    let reg = RaycastExecutor::standard();
    let r = run(&reg, "noop", vec![JsonValue::Null]);
    assert_eq!(
        r.unwrap_err(),
        RaycastError::ArgumentCountMismatch {
            function: "noop".to_string(),
            expected: 0,
            actual: 1
        }
    );
}

#[test]
fn decoding_error_names_first_bad_position() {
    let reg = RaycastExecutor::standard();
    let r = run(&reg, "greeting", vec![number("1"), text("yes")]);
    match r.unwrap_err() {
        RaycastError::DecodingError { function, parameter, position, error } => {
            assert_eq!(function, "greeting");
            assert_eq!(parameter, "name");
            assert_eq!(position, 0);
            assert!(!error.is_empty());
        }
        other => panic!("unexpected {:?}", other),
    }
}

#[test]
fn decoding_error_at_second_position() {
    let reg = RaycastExecutor::standard();
    let r = run(&reg, "greeting", vec![text("Ada"), text("yes")]);
    match r.unwrap_err() {
        RaycastError::DecodingError { function, parameter, position, .. } => {
            assert_eq!(function, "greeting");
            assert_eq!(parameter, "is_formal");
            assert_eq!(position, 1);
        }
        other => panic!("unexpected {:?}", other),
    }
}

#[test]
fn decoding_error_inside_a_list_is_reported_at_its_position() {
    let reg = RaycastExecutor::standard();
    let r = run(&reg, "greetings", vec![JsonValue::Array(vec![text("Ada"), number("2")])]);
    match r.unwrap_err() {
        RaycastError::DecodingError { parameter, position, .. } => {
            assert_eq!(parameter, "names");
            assert_eq!(position, 0);
        }
        other => panic!("unexpected {:?}", other),
    }
}

#[test]
fn pick_color_unknown_name_fails() {
    let reg = RaycastExecutor::standard();
    let r = run(&reg, "pick_color", vec![text("teal")]);
    assert_eq!(
        r.unwrap_err(),
        RaycastError::ExecutionError { error: "teal is not a supported color".to_string() }
    );
}

#[test]
fn pick_color_known_name_encodes_object() {
    let reg = RaycastExecutor::standard();
    let r = run(&reg, "pick_color", vec![text("green")]).unwrap();
    match r {
        JsonValue::Object(members) => {
            assert_eq!(members.len(), 3);
            let keys: Vec<&str> = members.iter().map(|m| m.0.as_str()).collect();
            assert_eq!(keys, vec!["red", "green", "blue"]);
            assert!(matches!(members[0].1, JsonValue::Number(ref t) if t == "0.0"));
            assert!(matches!(members[1].1, JsonValue::Number(ref t) if t == "1.0"));
            assert!(matches!(members[2].1, JsonValue::Number(ref t) if t == "0.0"));
        }
        other => panic!("unexpected {:?}", other),
    }
}

#[test]
fn unknown_command_is_not_found() {
    let reg = RaycastExecutor::standard();
    let before = reg.functions.len();
    let r = run(&reg, "unknown_cmd", vec![]);
    assert_eq!(
        r.unwrap_err(),
        RaycastError::FunctionNotFound { function: "unknown_cmd".to_string() }
    );
    assert_eq!(reg.functions.len(), before);
}

#[test]
fn noop_with_no_arguments_gives_null() {
    let reg = RaycastExecutor::standard();
    let r = run(&reg, "noop", vec![]);
    assert!(matches!(r, Ok(JsonValue::Null)));
}

#[test]
fn greetings_greets_each_name_in_order() {
    let reg = RaycastExecutor::standard();
    let r = run(&reg, "greetings", vec![JsonValue::Array(vec![text("Ada"), text("Bo")])]);
    match r.unwrap() {
        JsonValue::Array(items) => {
            assert_eq!(items.len(), 2);
            assert!(matches!(items[0], JsonValue::Str(ref s) if s == "Hello Ada!"));
            assert!(matches!(items[1], JsonValue::Str(ref s) if s == "Hello Bo!"));
        }
        other => panic!("unexpected {:?}", other),
    }
}

#[test]
fn greetings_of_empty_list_is_empty() {
    let reg = RaycastExecutor::standard();
    let r = run(&reg, "greetings", vec![JsonValue::Array(vec![])]);
    assert!(matches!(r, Ok(JsonValue::Array(ref items)) if items.is_empty()));
}

#[test]
fn optionals_null_decodes_to_absent() {
    let reg = RaycastExecutor::standard();
    let r = run(&reg, "optionals", vec![JsonValue::Null]);
    assert!(matches!(r, Ok(JsonValue::Null)));
}

#[test]
fn optionals_present_value() {
    let reg = RaycastExecutor::standard();
    let r = run(&reg, "optionals", vec![text("x")]);
    assert!(matches!(r, Ok(JsonValue::Str(ref s)) if s == "Got: x"));
}

#[test]
fn optionals_wrong_shape_is_decoding_error() {
    let reg = RaycastExecutor::standard();
    let r = run(&reg, "optionals", vec![JsonValue::Bool(true)]);
    assert!(matches!(r, Err(RaycastError::DecodingError { position: 0, .. })));
}

#[test]
fn first_registered_wins_on_duplicate_names() {
    let mut reg = RaycastExecutor::standard();
    let mut shadow = RaycastFunction::describe(Command::Noop);
    shadow.name = "greeting".to_string();
    reg.register(shadow);
    assert_eq!(reg.lookup("greeting"), Some(1));
    let r = run(&reg, "greeting", vec![text("Ada"), JsonValue::Bool(true)]);
    assert!(matches!(r, Ok(JsonValue::Str(ref s)) if s == "Hello Mr/Ms Ada!"));
}

#[test]
fn lookup_of_missing_name_is_none() {
    let reg = RaycastExecutor::new();
    assert_eq!(reg.lookup("greeting"), None);
}

#[test]
fn handlers_called_directly() {
    assert_eq!(greeting("Ada".to_string(), true), "Hello Mr/Ms Ada!");
    assert_eq!(
        greetings(vec!["a".to_string(), "b".to_string()]),
        vec!["Hello a!".to_string(), "Hello b!".to_string()]
    );
    assert_eq!(optionals(Some("v".to_string())), Some("Got: v".to_string()));
    assert_eq!(optionals(None), None);
    assert_eq!(pick_color("red".to_string()), Ok(Color { red: true, green: false, blue: false }));
    assert_eq!(pick_color("blue".to_string()), Ok(Color { red: false, green: false, blue: true }));
    assert_eq!(pick_color("teal".to_string()), Err("teal is not a supported color".to_string()));
}

#[test]
fn fallible_result_conversion() {
    let ok = serialize_result_to_json(Ok(text("v")));
    assert!(matches!(ok, Ok(JsonValue::Str(ref s)) if s == "v"));
    let err = serialize_result_to_json(Err("boom".to_string()));
    assert_eq!(err.unwrap_err(), RaycastError::ExecutionError { error: "boom".to_string() });
}

#[test]
fn delayed_greeting_negative_duration_fails() {
    let r = serialize_result_to_json(delayed_greeting("Ada".to_string(), true).map(JsonValue::Str));
    assert_eq!(
        r.unwrap_err(),
        RaycastError::ExecutionError { error: "Seconds must be non-negative".to_string() }
    );
}

#[test]
fn delayed_greeting_after_wait_greets() {
    assert_eq!(delayed_greeting("Ada".to_string(), false), Ok("... Hello Ada!".to_string()));
}

#[test]
fn marshal_accepts_number_and_refuses_text_for_it() {
    let params = vec![
        Param { name: "name".to_string(), kind: ParamKind::Text },
        Param { name: "seconds".to_string(), kind: ParamKind::Number },
    ];
    let ok = marshal("delayed_greeting", &params, &vec![text("Ada"), number("-1.0")]).unwrap();
    assert!(matches!(ok[1], Arg::Number(ref t) if t == "-1.0"));
    let bad = marshal("delayed_greeting", &params, &vec![text("Ada"), text("soon")]);
    assert!(matches!(bad, Err(RaycastError::DecodingError { position: 1, ref parameter, .. }) if parameter == "seconds"));
    let short = marshal("delayed_greeting", &params, &vec![]);
    assert!(matches!(short, Err(RaycastError::ArgumentCountMismatch { expected: 2, actual: 0, .. })));
}

#[test]
fn delayed_greeting_waits_with_decoded_arguments() {
    let reg = RaycastExecutor::standard();
    match reg.execute("delayed_greeting", vec![text("Ada"), number("-1.0")]) {
        Step::Wait { name, seconds } => {
            assert_eq!(name, "Ada");
            assert_eq!(seconds, "-1.0");
        }
        other => panic!("unexpected {:?}", other),
    }
}

#[test]
fn delayed_greeting_negative_end_to_end() {
    let reg = RaycastExecutor::standard();
    let r = match reg.execute("delayed_greeting", vec![text("Ada"), number("-1.0")]) {
        Step::Wait { name, seconds } => {
            let negative = seconds.parse::<f64>().unwrap() < 0.0;
            finish_delayed_greeting(name, negative)
        }
        Step::Done(r) => r,
    };
    assert_eq!(
        r.unwrap_err(),
        RaycastError::ExecutionError { error: "Seconds must be non-negative".to_string() }
    );
}

#[test]
fn delayed_greeting_settled_after_wait() {
    let r = finish_delayed_greeting("Ada".to_string(), false);
    assert!(matches!(r, Ok(JsonValue::Str(ref s)) if s == "... Hello Ada!"));
}

#[test]
fn delayed_greeting_wrong_count_is_done_at_once() {
    let reg = RaycastExecutor::standard();
    let r = run(&reg, "delayed_greeting", vec![text("Ada")]);
    assert_eq!(
        r.unwrap_err(),
        RaycastError::ArgumentCountMismatch {
            function: "delayed_greeting".to_string(),
            expected: 2,
            actual: 1
        }
    );
}

#[test]
fn delayed_greeting_bad_delay_is_decoding_error() {
    let reg = RaycastExecutor::standard();
    let r = run(&reg, "delayed_greeting", vec![text("Ada"), text("soon")]);
    assert!(matches!(r, Err(RaycastError::DecodingError { position: 1, ref parameter, .. }) if parameter == "seconds"));
}

#[test]
fn waited_and_immediate_outcomes_agree() {
    for negative in [true, false] {
        let waited = finish_delayed_greeting("Ada".to_string(), negative);
        let immediate = serialize_result_to_json(
            delayed_greeting("Ada".to_string(), negative).map(JsonValue::Str),
        );
        match (waited, immediate) {
            (Ok(JsonValue::Str(a)), Ok(JsonValue::Str(b))) => assert_eq!(a, b),
            (Err(a), Err(b)) => assert_eq!(a, b),
            other => panic!("outcomes differ: {:?}", other),
        }
    }
}
