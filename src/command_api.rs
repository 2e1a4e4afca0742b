//! The messages exchanged with a command process, and the action a reply asks for.
use vstd::prelude::*;
use crate::action::{default_shell, Action, EffectView, IAction, NoAction, ShellAction};
use crate::casl_action::{casl_op_for, casl_text, CASLAction};
use crate::text::{json_quote, json_string_of};

verus! {

/// The request sent to a command: the phrase it matched.
#[derive(Clone)]
pub struct Payload {
    pub text: String,
}

/// The reply of a command: an error, or an action to perform.
#[derive(Clone)]
pub struct Response {
    pub error: Option<String>,
    pub action: CommandAction,
}

/// An action that a reply, or a command's configuration, asks for.
#[derive(Clone)]
pub enum CommandAction {
    /// Nothing: the command has done the work itself.
    Custom,
    /// Run a command line, under `/bin/sh` unless `shell` names another.
    Shell { command: String, shell: Option<String> },
    /// Invoke a builtin operation by name.
    CASL { operation: String, parameters: Vec<String> },
}

impl CommandAction {
    /// The effect that performing this action has.
    pub open spec fn effect_of(&self) -> EffectView {
        match self {
            CommandAction::Custom => EffectView::Nothing,
            CommandAction::Shell { command, shell } => EffectView::Spawn {
                shell: match shell {
                    Some(s) => s@,
                    None => default_shell(),
                },
                command: command@,
            },
            CommandAction::CASL { operation, parameters } => match casl_op_for(operation@) {
                Some(op) => EffectView::Print { text: casl_text(op, parameters.deep_view()) },
                None => EffectView::Nothing,
            },
        }
    }

    pub fn action(&self) -> (r: Action)
        ensures
            r.effect() == self.effect_of(),
    {
        match self {
            CommandAction::Custom => Action::Nothing(NoAction::new(self)),
            CommandAction::Shell { .. } => Action::Shell(ShellAction::new(self)),
            CommandAction::CASL { .. } => Action::Casl(CASLAction::new(self)),
        }
    }
}

/// The JSON text of a payload: an object whose one member `text` holds the phrase.
pub open spec fn payload_json(text: Seq<char>) -> Seq<char> {
    "{\"text\":"@ + json_string_of(text) + "}"@
}

impl Payload {
    /// The payload as one JSON message.
    pub fn to_json(&self) -> (r: String)
        ensures
            r@ == payload_json(self.text@),
    {
        let quoted = json_quote(self.text.as_str());
        let mut s = String::from_str("{\"text\":");
        s.append(quoted.as_str());
        s.append("}");
        s
    }
}

/// What a reply leads to: its error, or else the action it carries.
pub fn handle_response(resp: &Response) -> (r: Result<Action, String>)
    ensures
        match resp.error {
            Some(e) => r is Err && r->Err_0@ == e@,
            None => r is Ok && r->Ok_0.effect() == resp.action.effect_of(),
        },
{
    match &resp.error {
        Some(e) => Err(e.clone()),
        None => Ok(resp.action.action()),
    }
}

} // verus!
