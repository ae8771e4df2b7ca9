//! Command descriptors, the registry that holds them, and dispatch by name.
use vstd::prelude::*;

use crate::commands::{
    color_named, delayed_greeting, delayed_hello_text, encode_color, encode_optional, encode_strings, got_text, greeting,
    greeting_text, greetings, hello_text, is_color_json, is_string_array, noop, optionals,
    pick_color, unsupported_color_text,
};
use crate::error::RaycastError;
use crate::json::{string_of, JsonValue};
use crate::marshal::{
    all_decode, decode_spec, first_bad_position, kinds_of, marshal, Arg, ArgModel,
    Param, ParamKind,
};

verus! {

/// The handlers a descriptor can call.
#[derive(Clone, Copy, PartialEq, Eq, Structural)]
pub enum Command {
    Noop,
    Greeting,
    Greetings,
    Optionals,
    PickColor,
    DelayedGreeting,
}

/// The name a command is registered under.
pub open spec fn command_name(c: Command) -> Seq<char> {
    match c {
        Command::Noop => "noop"@,
        Command::Greeting => "greeting"@,
        Command::Greetings => "greetings"@,
        Command::Optionals => "optionals"@,
        Command::PickColor => "pick_color"@,
        Command::DelayedGreeting => "delayed_greeting"@,
    }
}

/// The declared parameter types of a command, in order.
pub open spec fn command_kinds(c: Command) -> Seq<ParamKind> {
    match c {
        Command::Noop => seq![],
        Command::Greeting => seq![ParamKind::Text, ParamKind::Flag],
        Command::Greetings => seq![ParamKind::TextList],
        Command::Optionals => seq![ParamKind::OptionalText],
        Command::PickColor => seq![ParamKind::Text],
        Command::DelayedGreeting => seq![ParamKind::Text, ParamKind::Number],
    }
}

/// The declared parameter names of a command, in order.
pub open spec fn command_param_names(c: Command) -> Seq<Seq<char>> {
    match c {
        Command::Noop => seq![],
        Command::Greeting => seq!["name"@, "is_formal"@],
        Command::Greetings => seq!["names"@],
        Command::Optionals => seq!["value"@],
        Command::PickColor => seq!["name"@],
        Command::DelayedGreeting => seq!["name"@, "seconds"@],
    }
}

/// Whether `r` is what command `c` gives on the decoded arguments `args`:
/// plain outputs are encoded, and a domain failure becomes an execution
/// error carrying its text.
pub open spec fn command_result(
    c: Command,
    args: Seq<ArgModel>,
    r: Result<JsonValue, RaycastError>,
) -> bool {
    match c {
        Command::Noop => r matches Ok(JsonValue::Null),
        Command::Greeting => {
            &&& args[0] matches ArgModel::Text(name)
            &&& args[1] matches ArgModel::Flag(is_formal)
            &&& r matches Ok(v)
            &&& string_of(v) == Some(greeting_text(name, is_formal))
        },
        Command::Greetings => {
            &&& args[0] matches ArgModel::TextList(names)
            &&& r matches Ok(v)
            &&& is_string_array(v, names.map_values(|n: Seq<char>| hello_text(n)))
        },
        Command::Optionals => {
            &&& args[0] matches ArgModel::OptionalText(value)
            &&& r matches Ok(v)
            &&& match value {
                Some(s) => string_of(v) == Some(got_text(s)),
                None => v is Null,
            }
        },
        Command::PickColor => {
            &&& args[0] matches ArgModel::Text(name)
            &&& match color_named(name) {
                Some(c) => r matches Ok(v) && is_color_json(v, c),
                None => r is Err && r->Err_0.is_execution_error(unsupported_color_text(name)),
            }
        },
        // This command does not finish at once: see `invoked`.
        Command::DelayedGreeting => false,
    }
}

/// Where a call stands once its arguments are decoded.
#[derive(Debug)]
pub enum Step {
    /// The call is over, with this outcome.
    Done(Result<JsonValue, RaycastError>),
    /// The delayed greeting of `name` waits on the caller: `seconds` is the
    /// JSON text of the requested delay. The caller judges whether it is
    /// negative, waits when it is not, and settles the call with
    /// `finish_delayed_greeting`.
    Wait { name: String, seconds: String },
}

/// Whether `s` is where command `c` stands on the decoded arguments `args`:
/// the delayed greeting waits with its name and delay; every other command
/// is done with its result.
pub open spec fn invoked(c: Command, args: Seq<ArgModel>, s: Step) -> bool {
    if c is DelayedGreeting {
        &&& s matches Step::Wait { name, seconds }
        &&& args[0] == ArgModel::Text(name@)
        &&& args[1] == ArgModel::Number(seconds@)
    } else {
        s matches Step::Done(r) && command_result(c, args, r)
    }
}

/// Whether `a` is a decoded argument of type `k`.
pub open spec fn has_kind(a: ArgModel, k: ParamKind) -> bool {
    match k {
        ParamKind::Text => a is Text,
        ParamKind::Flag => a is Flag,
        ParamKind::TextList => a is TextList,
        ParamKind::OptionalText => a is OptionalText,
        ParamKind::Number => a is Number,
    }
}

/// Turns a handler's fallible output into a call outcome: success passes
/// through, and a failure becomes an execution error with its text.
pub fn serialize_result_to_json(result: Result<JsonValue, String>) -> (r: Result<
    JsonValue,
    RaycastError,
>)
    ensures
        result is Ok ==> r == Ok::<JsonValue, RaycastError>(result->Ok_0),
        result is Err ==> r is Err && r->Err_0.is_execution_error(result->Err_0@),
{
    match result {
        Ok(v) => Ok(v),
        Err(e) => Err(RaycastError::ExecutionError { error: e }),
    }
}

/// Calls the handler of `c` on arguments already decoded to its declared types.
fn invoke(c: Command, args: Vec<Arg>) -> (r: Step)
    requires
        args@.len() == command_kinds(c).len(),
        forall|i: int|
            0 <= i < args@.len() ==> has_kind((#[trigger] args@[i])@, command_kinds(c)[i]),
    ensures
        invoked(c, args@.map_values(|a: Arg| a@), r),
{
    // The `requires` fixes each argument's variant, so the fallback arms
    // of the matches below are never taken.
    let ghost models = args@.map_values(|a: Arg| a@);
    assert(forall|i: int| 0 <= i < args@.len() ==> models[i] == (#[trigger] args@[i])@);
    match c {
        Command::Noop => {
            noop();
            Step::Done(Ok(JsonValue::Null))
        },
        Command::Greeting => {
            assert(has_kind(args@[0]@, ParamKind::Text));
            assert(has_kind(args@[1]@, ParamKind::Flag));
            let name = match &args[0] {
                Arg::Text(s) => s.clone(),
                _ => "".to_owned(),
            };
            let is_formal = match &args[1] {
                Arg::Flag(b) => *b,
                _ => false,
            };
            Step::Done(Ok(JsonValue::Str(greeting(name, is_formal))))
        },
        Command::Greetings => {
            assert(has_kind(args@[0]@, ParamKind::TextList));
            let names = match &args[0] {
                Arg::TextList(v) => v.clone(),
                _ => Vec::new(),
            };
            assert(names@ == args@[0]->TextList_0@);
            let out = greetings(names);
            let r = encode_strings(out);
            proof {
                let m = args@[0]@->TextList_0;
                assert(out@.map_values(|s: String| s@) =~= m.map_values(
                    |n: Seq<char>| hello_text(n),
                ));
            }
            Step::Done(Ok(r))
        },
        Command::Optionals => {
            assert(has_kind(args@[0]@, ParamKind::OptionalText));
            let value = match &args[0] {
                Arg::OptionalText(o) => o.clone(),
                _ => None,
            };
            Step::Done(Ok(encode_optional(optionals(value))))
        },
        Command::PickColor => {
            assert(has_kind(args@[0]@, ParamKind::Text));
            let name = match &args[0] {
                Arg::Text(s) => s.clone(),
                _ => "".to_owned(),
            };
            let result = match pick_color(name) {
                Ok(color) => Ok(encode_color(color)),
                Err(e) => Err(e),
            };
            Step::Done(serialize_result_to_json(result))
        },
        Command::DelayedGreeting => {
            assert(has_kind(args@[0]@, ParamKind::Text));
            assert(has_kind(args@[1]@, ParamKind::Number));
            let name = match &args[0] {
                Arg::Text(s) => s.clone(),
                _ => "".to_owned(),
            };
            let seconds = match &args[1] {
                Arg::Number(t) => t.clone(),
                _ => "".to_owned(),
            };
            Step::Wait { name, seconds }
        },
    }
}

/// Settles a delayed greeting once the caller has judged its delay: a
/// negative one fails with the handler's text; otherwise, after the wait,
/// the greeting is the result.
pub fn finish_delayed_greeting(name: String, seconds_negative: bool) -> (r: Result<
    JsonValue,
    RaycastError,
>)
    ensures
        seconds_negative ==> r is Err && r->Err_0.is_execution_error(
            "Seconds must be non-negative"@,
        ),
        !seconds_negative ==> (r matches Ok(v) && string_of(v) == Some(delayed_hello_text(name@))),
{
    let result = match delayed_greeting(name, seconds_negative) {
        Ok(s) => Ok(JsonValue::Str(s)),
        Err(e) => Err(e),
    };
    serialize_result_to_json(result)
}

/// One callable command: the name it is registered under, its declared
/// parameters, and the handler that runs on the decoded arguments.
pub struct RaycastFunction {
    pub name: String,
    pub params: Vec<Param>,
    pub command: Command,
}

impl RaycastFunction {
    /// The declared parameters are those of the handler.
    pub open spec fn wf(&self) -> bool {
        kinds_of(self.params@) == command_kinds(self.command)
    }

    /// The descriptor of `command`, under its own name.
    pub fn describe(command: Command) -> (r: RaycastFunction)
        ensures
            r.wf(),
            r.command == command,
            r.name@ == command_name(command),
            r.params@.map_values(|p: Param| p.name@) =~= command_param_names(command),
    {
        let mut params: Vec<Param> = Vec::new();
        let name = match command {
            Command::Noop => "noop".to_owned(),
            Command::Greeting => {
                params.push(Param { name: "name".to_owned(), kind: ParamKind::Text });
                params.push(Param { name: "is_formal".to_owned(), kind: ParamKind::Flag });
                "greeting".to_owned()
            },
            Command::Greetings => {
                params.push(Param { name: "names".to_owned(), kind: ParamKind::TextList });
                "greetings".to_owned()
            },
            Command::Optionals => {
                params.push(Param { name: "value".to_owned(), kind: ParamKind::OptionalText });
                "optionals".to_owned()
            },
            Command::PickColor => {
                params.push(Param { name: "name".to_owned(), kind: ParamKind::Text });
                "pick_color".to_owned()
            },
            Command::DelayedGreeting => {
                params.push(Param { name: "name".to_owned(), kind: ParamKind::Text });
                params.push(Param { name: "seconds".to_owned(), kind: ParamKind::Number });
                "delayed_greeting".to_owned()
            },
        };
        assert(kinds_of(params@) =~= command_kinds(command));
        RaycastFunction { name, params, command }
    }
}

/// The outcome of calling `f`, looked up as `name`, with `args`: the count is
/// checked first, then each position in order, and only when all decode does
/// the handler run (or, for the delayed greeting, the wait begin).
pub open spec fn call_outcome(
    f: RaycastFunction,
    name: Seq<char>,
    args: Seq<JsonValue>,
    s: Step,
) -> bool {
    let kinds = kinds_of(f.params@);
    &&& args.len() != kinds.len() ==> (s matches Step::Done(Err(e)) && e.is_count_mismatch(
        name,
        kinds.len(),
        args.len(),
    ))
    &&& forall|i: int|
        args.len() == kinds.len() && #[trigger] first_bad_position(kinds, args, i) ==> (s matches Step::Done(
            Err(e),
        ) && e.is_decoding_error(name, f.params@[i].name@, i as nat))
    &&& all_decode(kinds, args) ==> invoked(
        f.command,
        Seq::new(kinds.len(), |i: int| decode_spec(kinds[i], args[i])->0),
        s,
    )
}

/// Whether `i` is the first descriptor registered under `name`.
pub open spec fn first_match(functions: Seq<RaycastFunction>, name: Seq<char>, i: int) -> bool {
    &&& 0 <= i < functions.len()
    &&& functions[i].name@ == name
    &&& forall|j: int| 0 <= j < i ==> (#[trigger] functions[j]).name@ != name
}

/// Whether some descriptor is registered under `name`.
pub open spec fn registered(functions: Seq<RaycastFunction>, name: Seq<char>) -> bool {
    exists|i: int| 0 <= i < functions.len() && (#[trigger] functions[i]).name@ == name
}

/// The registry: descriptors in the order they were added. Lookup is by exact
/// name, and where two share a name the first one added is the one called.
pub struct RaycastExecutor {
    pub functions: Vec<RaycastFunction>,
}

impl RaycastExecutor {
    /// Every descriptor is well formed.
    pub open spec fn wf(&self) -> bool {
        forall|i: int| 0 <= i < self.functions@.len() ==> (#[trigger] self.functions@[i]).wf()
    }

    /// An empty registry.
    pub fn new() -> (r: RaycastExecutor)
        ensures
            r.wf(),
            r.functions@.len() == 0,
    {
        RaycastExecutor { functions: Vec::new() }
    }

    /// Adds a descriptor after those already registered.
    pub fn register(&mut self, function: RaycastFunction)
        requires
            old(self).wf(),
            function.wf(),
        ensures
            final(self).wf(),
            final(self).functions@ == old(self).functions@.push(function),
    {
        self.functions.push(function);
    }

    /// The registry of every command this library serves.
    pub fn standard() -> (r: RaycastExecutor)
        ensures
            r.wf(),
            r.functions@.len() == 6,
            r.functions@[0].command == Command::Noop,
            r.functions@[1].command == Command::Greeting,
            r.functions@[2].command == Command::Greetings,
            r.functions@[3].command == Command::Optionals,
            r.functions@[4].command == Command::PickColor,
            r.functions@[5].command == Command::DelayedGreeting,
            forall|i: int|
                0 <= i < 6 ==> (#[trigger] r.functions@[i]).name@ == command_name(
                    r.functions@[i].command,
                ),
            forall|i: int|
                0 <= i < 6 ==> (#[trigger] r.functions@[i]).params@.map_values(|p: Param| p.name@)
                    == command_param_names(r.functions@[i].command),
    {
        let mut r = RaycastExecutor::new();
        r.register(RaycastFunction::describe(Command::Noop));
        r.register(RaycastFunction::describe(Command::Greeting));
        r.register(RaycastFunction::describe(Command::Greetings));
        r.register(RaycastFunction::describe(Command::Optionals));
        r.register(RaycastFunction::describe(Command::PickColor));
        r.register(RaycastFunction::describe(Command::DelayedGreeting));
        r
    }

    /// The position of the first descriptor registered under `name`.
    pub fn lookup(&self, name: &str) -> (r: Option<usize>)
        ensures
            r is None <==> !registered(self.functions@, name@),
            r is Some ==> first_match(self.functions@, name@, r->0 as int),
    {
        let wanted = name.to_owned();
        let mut i: usize = 0;
        while i < self.functions.len()
            invariant
                wanted@ == name@,
                i <= self.functions@.len(),
                forall|j: int| 0 <= j < i ==> (#[trigger] self.functions@[j]).name@ != name@,
            decreases self.functions@.len() - i,
        {
            if self.functions[i].name == wanted {
                return Some(i);
            }
            i = i + 1;
        }
        None
    }

    /// Calls the command registered under `function_name` with `args`.
    /// An unknown name is reported and nothing is called; otherwise the
    /// first descriptor of that name decodes the arguments and runs, or,
    /// for a command that waits, hands the wait to the caller.
    pub fn execute(&self, function_name: &str, args: Vec<JsonValue>) -> (r: Step)
        requires
            self.wf(),
        ensures
            !registered(self.functions@, function_name@) ==> (r matches Step::Done(Err(e))
                && e.is_not_found(function_name@)),
            registered(self.functions@, function_name@) ==> exists|i: int|
                #[trigger] first_match(self.functions@, function_name@, i),
            forall|i: int|
                #[trigger] first_match(self.functions@, function_name@, i) ==> call_outcome(
                    self.functions@[i],
                    function_name@,
                    args@,
                    r,
                ),
    {
        match self.lookup(function_name) {
            None => Step::Done(
                Err(RaycastError::FunctionNotFound { function: function_name.to_owned() }),
            ),
            Some(index) => {
                let function = &self.functions[index];
                proof {
                    assert forall|i: int|
                        #[trigger] first_match(self.functions@, function_name@, i) implies i
                        == index as int by {
                        if i < index as int {
                        } else if i > index as int {
                            assert(self.functions@[index as int].name@ == function_name@);
                        }
                    }
                }
                assert(first_match(self.functions@, function_name@, index as int));
                assert(function.wf());
                match marshal(function_name, &function.params, &args) {
                    Err(e) => Step::Done(Err(e)),
                    Ok(decoded) => {
                        let ghost kinds = kinds_of(function.params@);
                        proof {
                            assert forall|i: int| 0 <= i < decoded@.len() implies has_kind(
                                (#[trigger] decoded@[i])@,
                                command_kinds(function.command)[i],
                            ) by {
                                assert(decoded@[i]@ == decode_spec(kinds[i], args@[i])->0);
                                assert(decode_spec(kinds[i], args@[i]) is Some);
                            }
                            assert(decoded@.map_values(|a: Arg| a@) =~= Seq::new(
                                kinds.len(),
                                |i: int| decode_spec(kinds[i], args@[i])->0,
                            ));
                        }
                        invoke(function.command, decoded)
                    },
                }
            },
        }
    }
}

} // verus!
