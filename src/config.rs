//! The configuration: thresholds, preprocessors and commands.
use vstd::prelude::*;
use crate::command_api::CommandAction;
use crate::preprocessor::{all_compile, rules_view, Preprocessor, SimpleMapper};
use crate::command::{
    AutoActionCommand, Command, DispatchView, ICommand, ShellCommand, SocketCommand, StdIOCommand,
};
use crate::command_api::payload_json;
use crate::pattern::{regex_compiles, regex_expanded, regex_matches, Pattern};

verus! {

/// A search/replace rule of a remap table.
#[derive(Clone)]
pub struct Mapping {
    pub search: String,
    pub replace: String,
    pub name: Option<String>,
}

/// The configuration, loaded once and read-only afterwards.
#[derive(Clone)]
pub struct Config {
    pub model: String,
    pub scorer: Option<String>,
    pub carryover_buffer_size: usize,
    pub refresh_buffer_threshold: usize,
    pub gap_detection_ms: usize,
    pub preprocessors: Vec<PreprocessorConfig>,
    pub commands: Vec<CommandConfig>,
}

/// Why a configuration entry could not be turned into its working form.
#[derive(Debug, PartialEq, Eq, Structural)]
pub enum ConfigError {
    /// The pattern at this index of its list does not compile.
    InvalidPattern { index: usize },
    /// The entry names another file, which has to be loaded first.
    Unresolved,
}

/// A preprocessor as configured.
#[derive(Clone)]
pub enum PreprocessorConfig {
    Remap { mappings: Vec<Mapping> },
    Redirect { path: String },
}

impl PreprocessorConfig {
    /// A remap table from its mappings; a redirect has to be loaded from its file.
    pub fn preprocessor(&self) -> (r: Result<Preprocessor, ConfigError>)
        ensures
            match self {
                PreprocessorConfig::Remap { mappings } => {
                    &&& r is Ok <==> all_compile(mappings@)
                    &&& r is Ok ==> {
                        &&& r->Ok_0 is Remap
                        &&& rules_view(r->Ok_0->Remap_0.mappings@).len() == mappings@.len()
                        &&& forall|i: int|
                            0 <= i < mappings@.len() ==> #[trigger] rules_view(
                                r->Ok_0->Remap_0.mappings@,
                            )[i] == ((mappings@[i].search@, false), mappings@[i].replace@)
                    }
                    &&& r is Err ==> {
                        let k = r->Err_0->InvalidPattern_index as int;
                        &&& r->Err_0 is InvalidPattern
                        &&& 0 <= k < mappings@.len()
                        &&& !regex_compiles(mappings@[k].search@, false)
                        &&& all_compile(mappings@.subrange(0, k))
                    }
                },
                PreprocessorConfig::Redirect { .. } => r == Err::<Preprocessor, ConfigError>(
                    ConfigError::Unresolved,
                ),
            },
    {
        match self {
            PreprocessorConfig::Remap { mappings } => match SimpleMapper::from_mappings(mappings) {
                Ok(m) => Ok(Preprocessor::Remap(m)),
                Err(index) => Err(ConfigError::InvalidPattern { index }),
            },
            PreprocessorConfig::Redirect { .. } => Err(ConfigError::Unresolved),
        }
    }
}

/// A command as configured: a precondition pattern, which text it is matched
/// against, and how it is dispatched.
#[derive(Clone)]
pub enum CommandConfig {
    /// A request/response round trip over a datagram socket.
    Net {
        precondition: String,
        use_raw_text: bool,
        dst_port: usize,
        src_port: usize,
        src_addr: Option<String>,
        dst_addr: String,
    },
    /// A request/response round trip through a spawned process's standard I/O.
    StdIO { precondition: String, command: String, use_raw_text: bool },
    /// A command line, filled from the precondition's groups, run by a shell.
    Shell { precondition: String, command: String, shell: String, use_raw_text: bool },
    /// An action run directly.
    Action { precondition: String, use_raw_text: bool, action: CommandAction },
    /// A command whose configuration is in another file.
    Redirect { precondition: String, use_raw_text: bool, path: String },
}

/// The source address a datagram command binds when it names none.
pub open spec fn default_src_addr() -> Seq<char> {
    "localhost"@
}

impl CommandConfig {
    /// The precondition pattern.
    pub open spec fn precondition_spec(&self) -> Seq<char> {
        match self {
            CommandConfig::Net { precondition, .. } => precondition@,
            CommandConfig::StdIO { precondition, .. } => precondition@,
            CommandConfig::Shell { precondition, .. } => precondition@,
            CommandConfig::Action { precondition, .. } => precondition@,
            CommandConfig::Redirect { precondition, .. } => precondition@,
        }
    }

    /// Whether the precondition is matched against the raw phrase.
    pub open spec fn use_raw_spec(&self) -> bool {
        match self {
            CommandConfig::Net { use_raw_text, .. } => *use_raw_text,
            CommandConfig::StdIO { use_raw_text, .. } => *use_raw_text,
            CommandConfig::Shell { use_raw_text, .. } => *use_raw_text,
            CommandConfig::Action { use_raw_text, .. } => *use_raw_text,
            CommandConfig::Redirect { use_raw_text, .. } => *use_raw_text,
        }
    }

    /// Whether the command's working form can be built without loading a file
    /// or compiling a pattern that does not compile.
    pub open spec fn buildable(&self) -> bool {
        match self {
            CommandConfig::Shell { precondition, .. } => regex_compiles(precondition@, true),
            CommandConfig::Redirect { .. } => false,
            _ => true,
        }
    }

    /// What the command dispatches for `input`, for every kind but a redirect.
    pub open spec fn dispatch_spec(&self, input: Seq<char>) -> DispatchView {
        match self {
            CommandConfig::Net { dst_port, src_port, src_addr, dst_addr, .. } => DispatchView::Datagram {
                src_addr: match src_addr {
                    Some(a) => a@,
                    None => default_src_addr(),
                },
                src_port: *src_port,
                dst_addr: dst_addr@,
                dst_port: *dst_port,
                request: payload_json(input),
            },
            CommandConfig::StdIO { command, .. } => DispatchView::Piped {
                command: command@,
                request: payload_json(input) + "\n"@,
            },
            CommandConfig::Shell { precondition, command, shell, .. } => if regex_matches(
                precondition@,
                true,
                input,
            ) {
                DispatchView::Spawn {
                    shell: shell@,
                    command: regex_expanded(precondition@, true, input, command@),
                }
            } else {
                DispatchView::Skip
            },
            CommandConfig::Action { action, .. } => DispatchView::Perform {
                effect: action.effect_of(),
            },
            CommandConfig::Redirect { .. } => DispatchView::Skip,
        }
    }

    /// The command's working form; a redirect has to be loaded from its file.
    pub fn command(&self) -> (r: Result<Command, ConfigError>)
        ensures
            r is Ok <==> self.buildable(),
            r is Ok ==> forall|x: Seq<char>| #[trigger]
                r->Ok_0.dispatch_of(x) == self.dispatch_spec(x),
            r is Err ==> (self is Redirect && r->Err_0 == ConfigError::Unresolved) || (
            self is Shell && r->Err_0 == (ConfigError::InvalidPattern { index: 0 })),
    {
        match self {
            CommandConfig::Net { .. } => Ok(Command::Socket(SocketCommand::new(self))),
            CommandConfig::StdIO { .. } => Ok(Command::StdIO(StdIOCommand::new(self))),
            CommandConfig::Shell { .. } => match ShellCommand::new(self) {
                Some(c) => Ok(Command::Shell(c)),
                None => Err(ConfigError::InvalidPattern { index: 0 }),
            },
            CommandConfig::Redirect { .. } => Err(ConfigError::Unresolved),
            CommandConfig::Action { .. } => Ok(Command::Action(AutoActionCommand::new(self))),
        }
    }

    pub fn use_raw(&self) -> (r: bool)
        ensures
            r == self.use_raw_spec(),
    {
        match self {
            CommandConfig::Net { use_raw_text, .. } => *use_raw_text,
            CommandConfig::StdIO { use_raw_text, .. } => *use_raw_text,
            CommandConfig::Shell { use_raw_text, .. } => *use_raw_text,
            CommandConfig::Redirect { use_raw_text, .. } => *use_raw_text,
            CommandConfig::Action { use_raw_text, .. } => *use_raw_text,
        }
    }

    /// The precondition pattern's text.
    pub fn precondition(&self) -> (r: &String)
        ensures
            r@ == self.precondition_spec(),
    {
        match self {
            CommandConfig::Net { precondition, .. } => precondition,
            CommandConfig::StdIO { precondition, .. } => precondition,
            CommandConfig::Shell { precondition, .. } => precondition,
            CommandConfig::Redirect { precondition, .. } => precondition,
            CommandConfig::Action { precondition, .. } => precondition,
        }
    }

    /// Whether the precondition matches `text`, ignoring case; `None` where the
    /// precondition does not compile.
    pub fn is_match(&self, text: &str) -> (r: Option<bool>)
        ensures
            r is Some == regex_compiles(self.precondition_spec(), true),
            r is Some ==> r->Some_0 == regex_matches(self.precondition_spec(), true, text@),
    {
        match Pattern::new(self.precondition().as_str(), true) {
            Some(re) => Some(re.is_match(text)),
            None => None,
        }
    }
}

} // verus!
