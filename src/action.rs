//! Actions, and the effect that each resolves to.
use vstd::prelude::*;
use crate::casl_action::CASLAction;
use crate::command_api::CommandAction;

verus! {

/// What an action does, to be carried out by the caller.
pub enum Effect {
    /// Nothing to do.
    Nothing,
    /// Start `shell -c command`, detached, with no standard I/O.
    Spawn { shell: String, command: String },
    /// Print `text` on a line of its own.
    Print { text: String },
}

/// The mathematical value of an [`Effect`].
pub enum EffectView {
    Nothing,
    Spawn { shell: Seq<char>, command: Seq<char> },
    Print { text: Seq<char> },
}

impl View for Effect {
    type V = EffectView;

    open spec fn view(&self) -> EffectView {
        match self {
            Effect::Nothing => EffectView::Nothing,
            Effect::Spawn { shell, command } => EffectView::Spawn {
                shell: shell@,
                command: command@,
            },
            Effect::Print { text } => EffectView::Print { text: text@ },
        }
    }
}

/// Something that resolves to an effect.
pub trait IAction {
    /// The effect that `act` returns.
    spec fn effect(&self) -> EffectView;

    fn act(&self) -> (r: Effect)
        ensures
            r@ == self.effect(),
    ;
}

/// The action that does nothing.
pub struct NoAction {}

impl NoAction {
    pub fn new(_conf: &CommandAction) -> (r: NoAction) {
        NoAction {  }
    }
}

impl IAction for NoAction {
    open spec fn effect(&self) -> EffectView {
        EffectView::Nothing
    }

    fn act(&self) -> (r: Effect) {
        Effect::Nothing
    }
}

/// The interpreter a shell action runs when it names none.
pub open spec fn default_shell() -> Seq<char> {
    "/bin/sh"@
}

/// A command line for an interpreter.
pub struct ShellAction {
    pub shell: String,
    pub command: String,
}

impl ShellAction {
    pub fn new(conf: &CommandAction) -> (r: ShellAction)
        requires
            conf is Shell,
        ensures
            r.command@ == conf->Shell_command@,
            r.shell@ == match conf->Shell_shell {
                Some(s) => s@,
                None => default_shell(),
            },
    {
        match conf {
            CommandAction::Shell { command, shell } => ShellAction {
                command: command.clone(),
                shell: match shell {
                    Some(s) => s.clone(),
                    None => String::from_str("/bin/sh"),
                },
            },
            _ => {
                assert(false);
                ShellAction { command: String::new(), shell: String::new() }
            },
        }
    }
}

impl IAction for ShellAction {
    open spec fn effect(&self) -> EffectView {
        EffectView::Spawn { shell: self.shell@, command: self.command@ }
    }

    fn act(&self) -> (r: Effect) {
        Effect::Spawn { shell: self.shell.clone(), command: self.command.clone() }
    }
}

/// The action that a [`CommandAction`] describes.
pub enum Action {
    Nothing(NoAction),
    Shell(ShellAction),
    Casl(CASLAction),
}

impl IAction for Action {
    open spec fn effect(&self) -> EffectView {
        match self {
            Action::Nothing(a) => a.effect(),
            Action::Shell(a) => a.effect(),
            Action::Casl(a) => a.effect(),
        }
    }

    fn act(&self) -> (r: Effect) {
        match self {
            Action::Nothing(a) => a.act(),
            Action::Shell(a) => a.act(),
            Action::Casl(a) => a.act(),
        }
    }
}

} // verus!
