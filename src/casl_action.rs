//! Builtin operations that a `CASL` action invokes by name.
use vstd::prelude::*;
use crate::action::{Effect, EffectView, IAction};
use crate::command_api::CommandAction;
use crate::text::{join_lines, join_with_newlines, lower_of, lowercase};

verus! {

/// The builtin operations.
#[derive(Clone, Copy, Debug, PartialEq, Eq, Structural)]
pub enum CaslOp {
    HelloWorld,
    Debug,
    Warning,
    Error,
}

/// The operation registered under a lower-case name, if any.
pub open spec fn casl_op_named(name: Seq<char>) -> Option<CaslOp> {
    if name == "hello world"@ {
        Some(CaslOp::HelloWorld)
    } else if name == "debug"@ {
        Some(CaslOp::Debug)
    } else if name == "warning"@ {
        Some(CaslOp::Warning)
    } else if name == "error"@ {
        Some(CaslOp::Error)
    } else {
        None
    }
}

/// The operation that `name` selects: the lookup ignores case.
pub open spec fn casl_op_for(name: Seq<char>) -> Option<CaslOp> {
    casl_op_named(lower_of(name))
}

/// A message between the two halves of a banner.
pub open spec fn banner(head: Seq<char>, body: Seq<char>, tail: Seq<char>) -> Seq<char> {
    head + body + tail
}

/// The text that an operation prints for the given parameters.
pub open spec fn casl_text(op: CaslOp, params: Seq<Seq<char>>) -> Seq<char> {
    match op {
        CaslOp::HelloWorld => if params.len() != 0 {
            "Hello "@ + params[0] + " world"@
        } else {
            "Hello world"@
        },
        CaslOp::Debug => banner(
            "\\/ CASL DEBUG MESSAGE \\/\n"@,
            join_lines(params),
            "\n/\\CASL DEBUG MESSAGE/\\"@,
        ),
        CaslOp::Warning => banner(
            "\\/ CASL WARNING MESSAGE \\/\n"@,
            join_lines(params),
            "\n/\\CASL WARNING MESSAGE/\\"@,
        ),
        CaslOp::Error => banner(
            "\\/ CASL ERROR MESSAGE \\/\n"@,
            join_lines(params),
            "\n/\\CASL ERROR MESSAGE/\\"@,
        ),
    }
}

/// Looks an operation up by name, ignoring case.
pub fn get_func_by_name(op: &str) -> (r: Option<CaslOp>)
    ensures
        r == casl_op_for(op@),
{
    let op_lower = lowercase(op);
    if op_lower == String::from_str("hello world") {
        Some(CaslOp::HelloWorld)
    } else if op_lower == String::from_str("debug") {
        Some(CaslOp::Debug)
    } else if op_lower == String::from_str("warning") {
        Some(CaslOp::Warning)
    } else if op_lower == String::from_str("error") {
        Some(CaslOp::Error)
    } else {
        None
    }
}

/// The greeting: `Hello <first parameter> world`, or `Hello world` without one.
pub fn hello_world(params: &Vec<String>) -> (r: String)
    ensures
        r@ == casl_text(CaslOp::HelloWorld, params.deep_view()),
{
    if params.len() != 0 {
        let mut s = String::from_str("Hello ");
        s.append(params[0].as_str());
        s.append(" world");
        s
    } else {
        String::from_str("Hello world")
    }
}

fn framed(head: &str, params: &Vec<String>, tail: &str) -> (r: String)
    ensures
        r@ == banner(head@, join_lines(params.deep_view()), tail@),
{
    let body = join_with_newlines(params);
    let mut s = String::from_str(head);
    s.append(body.as_str());
    s.append(tail);
    s
}

/// The debug banner around the parameters, one per line.
pub fn print_debug(params: &Vec<String>) -> (r: String)
    ensures
        r@ == casl_text(CaslOp::Debug, params.deep_view()),
{
    framed("\\/ CASL DEBUG MESSAGE \\/\n", params, "\n/\\CASL DEBUG MESSAGE/\\")
}

/// The warning banner around the parameters, one per line.
pub fn print_warn(params: &Vec<String>) -> (r: String)
    ensures
        r@ == casl_text(CaslOp::Warning, params.deep_view()),
{
    framed("\\/ CASL WARNING MESSAGE \\/\n", params, "\n/\\CASL WARNING MESSAGE/\\")
}

/// The error banner around the parameters, one per line.
pub fn print_err(params: &Vec<String>) -> (r: String)
    ensures
        r@ == casl_text(CaslOp::Error, params.deep_view()),
{
    framed("\\/ CASL ERROR MESSAGE \\/\n", params, "\n/\\CASL ERROR MESSAGE/\\")
}

/// Runs `op` on `params`: the text it prints.
pub fn run_op(op: CaslOp, params: &Vec<String>) -> (r: String)
    ensures
        r@ == casl_text(op, params.deep_view()),
{
    match op {
        CaslOp::HelloWorld => hello_world(params),
        CaslOp::Debug => print_debug(params),
        CaslOp::Warning => print_warn(params),
        CaslOp::Error => print_err(params),
    }
}

/// A builtin operation together with its parameters; an unknown operation
/// does nothing.
pub struct CASLAction {
    pub operation: String,
    pub parameters: Vec<String>,
    pub func: Option<CaslOp>,
}

impl CASLAction {
    pub fn new(conf: &CommandAction) -> (r: CASLAction)
        requires
            conf is CASL,
        ensures
            r.operation@ == conf->CASL_operation@,
            r.parameters.deep_view() == conf->CASL_parameters.deep_view(),
            r.func == casl_op_for(conf->CASL_operation@),
    {
        match conf {
            CommandAction::CASL { operation, parameters } => CASLAction {
                operation: operation.clone(),
                parameters: parameters.clone(),
                func: get_func_by_name(operation.as_str()),
            },
            _ => {
                assert(false);
                CASLAction { operation: String::new(), parameters: Vec::new(), func: None }
            },
        }
    }
}

impl IAction for CASLAction {
    open spec fn effect(&self) -> EffectView {
        match self.func {
            Some(op) => EffectView::Print { text: casl_text(op, self.parameters.deep_view()) },
            None => EffectView::Nothing,
        }
    }

    fn act(&self) -> (r: Effect) {
        match self.func {
            Some(op) => Effect::Print { text: run_op(op, &self.parameters) },
            None => Effect::Nothing,
        }
    }
}

} // verus!
