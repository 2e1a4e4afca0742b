//! Commands: routing a phrase to the commands whose precondition matches it,
//! and the unit of work each kind of command dispatches.
use vstd::prelude::*;
use crate::action::{Action, Effect, EffectView, IAction};
use crate::command_api::{payload_json, Payload};
use crate::config::{default_src_addr, CommandConfig, Config, ConfigError};
use crate::pattern::{regex_compiles, regex_expanded, regex_matches, Pattern};
use crate::speech::MetadataResult;

verus! {

/// The unit of work a command dispatches, to be carried out by the caller on
/// a thread of its own.
pub enum Dispatch {
    /// Bind `src_addr:src_port`, send `request` as one datagram to
    /// `dst_addr:dst_port`, and wait for one reply datagram.
    Datagram {
        src_addr: String,
        src_port: usize,
        dst_addr: String,
        dst_port: usize,
        request: String,
    },
    /// Spawn `command` with piped standard I/O, write `request`, and read one
    /// line of reply.
    Piped { command: String, request: String },
    /// Start `shell -c command`, detached, with no standard I/O.
    Spawn { shell: String, command: String },
    /// Carry out an effect.
    Perform { effect: Effect },
    /// Nothing to do.
    Skip,
}

/// The mathematical value of a [`Dispatch`].
pub enum DispatchView {
    Datagram {
        src_addr: Seq<char>,
        src_port: usize,
        dst_addr: Seq<char>,
        dst_port: usize,
        request: Seq<char>,
    },
    Piped { command: Seq<char>, request: Seq<char> },
    Spawn { shell: Seq<char>, command: Seq<char> },
    Perform { effect: EffectView },
    Skip,
}

impl View for Dispatch {
    type V = DispatchView;

    open spec fn view(&self) -> DispatchView {
        match self {
            Dispatch::Datagram { src_addr, src_port, dst_addr, dst_port, request } =>
                DispatchView::Datagram {
                src_addr: src_addr@,
                src_port: *src_port,
                dst_addr: dst_addr@,
                dst_port: *dst_port,
                request: request@,
            },
            Dispatch::Piped { command, request } => DispatchView::Piped {
                command: command@,
                request: request@,
            },
            Dispatch::Spawn { shell, command } => DispatchView::Spawn {
                shell: shell@,
                command: command@,
            },
            Dispatch::Perform { effect } => DispatchView::Perform { effect: effect@ },
            Dispatch::Skip => DispatchView::Skip,
        }
    }
}

/// Something that turns a matched phrase into a unit of work.
pub trait ICommand {
    /// The unit of work that `run` returns for `input`.
    spec fn dispatch_of(&self, input: Seq<char>) -> DispatchView;

    fn run(&self, input: &str) -> (r: Dispatch)
        ensures
            r@ == self.dispatch_of(input@),
    ;
}

/// A request/response round trip over a datagram socket.
pub struct SocketCommand {
    pub src_addr: String,
    pub dst_addr: String,
    pub src_port: usize,
    pub dst_port: usize,
}

impl SocketCommand {
    pub fn new(conf: &CommandConfig) -> (r: SocketCommand)
        requires
            conf is Net,
        ensures
            r.src_addr@ == match conf->Net_src_addr {
                Some(a) => a@,
                None => default_src_addr(),
            },
            r.dst_addr@ == conf->Net_dst_addr@,
            r.src_port == conf->Net_src_port,
            r.dst_port == conf->Net_dst_port,
    {
        match conf {
            CommandConfig::Net { src_port, dst_port, src_addr, dst_addr, .. } => SocketCommand {
                src_port: *src_port,
                dst_port: *dst_port,
                src_addr: match src_addr {
                    Some(a) => a.clone(),
                    None => String::from_str("localhost"),
                },
                dst_addr: dst_addr.clone(),
            },
            _ => {
                assert(false);
                SocketCommand {
                    src_port: 0,
                    dst_port: 0,
                    src_addr: String::new(),
                    dst_addr: String::new(),
                }
            },
        }
    }
}

impl ICommand for SocketCommand {
    open spec fn dispatch_of(&self, input: Seq<char>) -> DispatchView {
        DispatchView::Datagram {
            src_addr: self.src_addr@,
            src_port: self.src_port,
            dst_addr: self.dst_addr@,
            dst_port: self.dst_port,
            request: payload_json(input),
        }
    }

    fn run(&self, input: &str) -> (r: Dispatch) {
        let payload = Payload { text: String::from_str(input) };
        Dispatch::Datagram {
            src_addr: self.src_addr.clone(),
            src_port: self.src_port,
            dst_addr: self.dst_addr.clone(),
            dst_port: self.dst_port,
            request: payload.to_json(),
        }
    }
}

/// A request/response round trip through a spawned process's standard I/O.
pub struct StdIOCommand {
    pub command: String,
}

impl StdIOCommand {
    pub fn new(conf: &CommandConfig) -> (r: StdIOCommand)
        requires
            conf is StdIO,
        ensures
            r.command@ == conf->StdIO_command@,
    {
        match conf {
            CommandConfig::StdIO { command, .. } => StdIOCommand { command: command.clone() },
            _ => {
                assert(false);
                StdIOCommand { command: String::new() }
            },
        }
    }
}

impl ICommand for StdIOCommand {
    open spec fn dispatch_of(&self, input: Seq<char>) -> DispatchView {
        DispatchView::Piped { command: self.command@, request: payload_json(input) + "\n"@ }
    }

    fn run(&self, input: &str) -> (r: Dispatch) {
        let payload = Payload { text: String::from_str(input) };
        let mut request = payload.to_json();
        request.append("\n");
        Dispatch::Piped { command: self.command.clone(), request }
    }
}

/// A command line filled from the precondition's groups and run by a shell.
pub struct ShellCommand {
    pub command: String,
    pub shell: String,
    pub precondition: Pattern,
}

impl ShellCommand {
    /// `None` where the precondition does not compile.
    pub fn new(conf: &CommandConfig) -> (r: Option<ShellCommand>)
        requires
            conf is Shell,
        ensures
            r is Some == regex_compiles(conf->Shell_precondition@, true),
            r is Some ==> {
                &&& r->Some_0.command@ == conf->Shell_command@
                &&& r->Some_0.shell@ == conf->Shell_shell@
                &&& r->Some_0.precondition@ == (conf->Shell_precondition@, true)
            },
    {
        match conf {
            CommandConfig::Shell { command, shell, precondition, .. } => match Pattern::new(
                precondition.as_str(),
                true,
            ) {
                Some(p) => Some(
                    ShellCommand { command: command.clone(), shell: shell.clone(), precondition: p },
                ),
                None => None,
            },
            _ => {
                assert(false);
                None
            },
        }
    }
}

impl ICommand for ShellCommand {
    open spec fn dispatch_of(&self, input: Seq<char>) -> DispatchView {
        if regex_matches(self.precondition@.0, self.precondition@.1, input) {
            DispatchView::Spawn {
                shell: self.shell@,
                command: regex_expanded(
                    self.precondition@.0,
                    self.precondition@.1,
                    input,
                    self.command@,
                ),
            }
        } else {
            DispatchView::Skip
        }
    }

    fn run(&self, input: &str) -> (r: Dispatch) {
        match self.precondition.expand(input, self.command.as_str()) {
            Some(line) => Dispatch::Spawn { shell: self.shell.clone(), command: line },
            None => Dispatch::Skip,
        }
    }
}

/// An action run directly, with no round trip.
pub struct AutoActionCommand {
    pub action: Action,
}

impl AutoActionCommand {
    pub fn new(conf: &CommandConfig) -> (r: AutoActionCommand)
        requires
            conf is Action,
        ensures
            r.action.effect() == conf->Action_action.effect_of(),
    {
        match conf {
            CommandConfig::Action { action, .. } => AutoActionCommand { action: action.action() },
            _ => {
                assert(false);
                AutoActionCommand { action: Action::Nothing(crate::action::NoAction {  }) }
            },
        }
    }
}

impl ICommand for AutoActionCommand {
    open spec fn dispatch_of(&self, input: Seq<char>) -> DispatchView {
        DispatchView::Perform { effect: self.action.effect() }
    }

    fn run(&self, _input: &str) -> (r: Dispatch) {
        Dispatch::Perform { effect: self.action.act() }
    }
}

/// A command whose configuration was loaded from another file.
pub struct RedirectCommand {
    pub command: Box<Command>,
    pub path: String,
}

impl RedirectCommand {
    /// A redirect to `path`, whose file held the configuration of `command`.
    pub fn from_parts(path: String, command: Command) -> (r: RedirectCommand)
        ensures
            r.path == path,
            *r.command == command,
    {
        RedirectCommand { command: Box::new(command), path }
    }
}

impl ICommand for RedirectCommand {
    open spec fn dispatch_of(&self, input: Seq<char>) -> DispatchView {
        self.command.dispatch_spec(input)
    }

    fn run(&self, input: &str) -> (r: Dispatch) {
        self.command.dispatch(input)
    }
}

/// A command of any kind.
pub enum Command {
    Socket(SocketCommand),
    StdIO(StdIOCommand),
    Shell(ShellCommand),
    Redirect(RedirectCommand),
    Action(AutoActionCommand),
}

impl Command {
    /// The unit of work this command dispatches for `input`.
    pub open spec fn dispatch_spec(&self, input: Seq<char>) -> DispatchView
        decreases self,
    {
        match self {
            Command::Socket(c) => c.dispatch_of(input),
            Command::StdIO(c) => c.dispatch_of(input),
            Command::Shell(c) => c.dispatch_of(input),
            Command::Redirect(c) => c.command.dispatch_spec(input),
            Command::Action(c) => c.dispatch_of(input),
        }
    }

    pub fn dispatch(&self, input: &str) -> (r: Dispatch)
        ensures
            r@ == self.dispatch_spec(input@),
        decreases self,
    {
        match self {
            Command::Socket(c) => c.run(input),
            Command::StdIO(c) => c.run(input),
            Command::Shell(c) => c.run(input),
            Command::Redirect(c) => c.command.dispatch(input),
            Command::Action(c) => c.run(input),
        }
    }
}

impl ICommand for Command {
    open spec fn dispatch_of(&self, input: Seq<char>) -> DispatchView {
        self.dispatch_spec(input)
    }

    fn run(&self, input: &str) -> (r: Dispatch) {
        self.dispatch(input)
    }
}

/// A command chosen for a phrase: its index in the configuration and the text
/// it is run on.
pub struct Routed {
    pub index: usize,
    pub text: String,
}

/// The routed commands as (index, text) pairs.
pub open spec fn routed_view(rs: Seq<Routed>) -> Seq<(int, Seq<char>)> {
    rs.map_values(|r: Routed| (r.index as int, r.text@))
}

/// The text a command is matched against: the raw or the preprocessed phrase.
pub open spec fn selected_text(c: CommandConfig, raw: Seq<char>, phrase: Seq<char>) -> Seq<char> {
    if c.use_raw_spec() {
        raw
    } else {
        phrase
    }
}

/// Every command whose precondition matches its selected text, ignoring case,
/// in declaration order.
pub open spec fn routes(cmds: Seq<CommandConfig>, raw: Seq<char>, phrase: Seq<char>) -> Seq<
    (int, Seq<char>),
>
    decreases cmds.len(),
{
    if cmds.len() == 0 {
        Seq::empty()
    } else {
        let prev = routes(cmds.drop_last(), raw, phrase);
        let c = cmds.last();
        let t = selected_text(c, raw, phrase);
        if regex_matches(c.precondition_spec(), true, t) {
            prev.push((cmds.len() - 1, t))
        } else {
            prev
        }
    }
}

/// Every command whose precondition matches fires: each such command is
/// routed with the text it selects, nothing else is routed, and the routed
/// commands come in declaration order.
pub proof fn lemma_router_fan_out(cmds: Seq<CommandConfig>, raw: Seq<char>, phrase: Seq<char>)
    ensures
        forall|i: int|
            0 <= i < cmds.len() && regex_matches(
                #[trigger] cmds[i].precondition_spec(),
                true,
                selected_text(cmds[i], raw, phrase),
            ) ==> exists|k: int|
                0 <= k < routes(cmds, raw, phrase).len() && #[trigger] routes(cmds, raw, phrase)[k]
                    == (i, selected_text(cmds[i], raw, phrase)),
        forall|k: int|
            0 <= k < routes(cmds, raw, phrase).len() ==> {
                let (i, t) = #[trigger] routes(cmds, raw, phrase)[k];
                &&& 0 <= i < cmds.len()
                &&& t == selected_text(cmds[i], raw, phrase)
                &&& regex_matches(cmds[i].precondition_spec(), true, t)
            },
        forall|a: int, b: int|
            0 <= a < b < routes(cmds, raw, phrase).len() ==> (#[trigger] routes(
                cmds,
                raw,
                phrase,
            )[a]).0 < (#[trigger] routes(cmds, raw, phrase)[b]).0,
    decreases cmds.len(),
{
    if cmds.len() > 0 {
        let d = cmds.drop_last();
        lemma_router_fan_out(d, raw, phrase);
        let p = routes(d, raw, phrase);
        let r = routes(cmds, raw, phrase);
        let n = cmds.len() - 1;
        let t = selected_text(cmds[n], raw, phrase);
        assert(forall|i: int| 0 <= i < n ==> d[i] == cmds[i]);
        assert forall|i: int|
            0 <= i < cmds.len() && regex_matches(
                #[trigger] cmds[i].precondition_spec(),
                true,
                selected_text(cmds[i], raw, phrase),
            ) implies exists|k: int|
            0 <= k < r.len() && #[trigger] r[k] == (i, selected_text(cmds[i], raw, phrase)) by {
            if i < n {
                assert(d[i] == cmds[i]);
                assert(regex_matches(d[i].precondition_spec(), true, selected_text(d[i], raw, phrase)));
                let k = choose|k: int|
                    0 <= k < p.len() && #[trigger] p[k] == (i, selected_text(d[i], raw, phrase));
                assert(r[k] == p[k]);
            } else {
                assert(r[p.len() as int] == (n, t));
            }
        }
        assert forall|k: int| 0 <= k < r.len() implies {
            let (i, t) = #[trigger] r[k];
            &&& 0 <= i < cmds.len()
            &&& t == selected_text(cmds[i], raw, phrase)
            &&& regex_matches(cmds[i].precondition_spec(), true, t)
        } by {
            if k < p.len() {
                assert(r[k] == p[k]);
                assert(d[p[k].0] == cmds[p[k].0]);
            }
        }
        assert forall|a: int, b: int| 0 <= a < b < r.len() implies (#[trigger] r[a]).0 < (
        #[trigger] r[b]).0 by {
            assert(r[a] == p[a]);
            if b < p.len() {
                assert(r[b] == p[b]);
            } else {
                assert(p[a].0 < d.len());
            }
        }
    }
}

/// Whether every precondition of `cmds` compiles, ignoring case.
pub open spec fn preconditions_compile(cmds: Seq<CommandConfig>) -> bool {
    forall|i: int| 0 <= i < cmds.len() ==> regex_compiles(#[trigger] cmds[i].precondition_spec(), true)
}

/// Routes a phrase: every command whose precondition matches the text it
/// selects, in declaration order. The error names the first precondition
/// that does not compile.
pub fn process_commands(meta_result: &MetadataResult, casl_config: &Config) -> (r: Result<
    Vec<Routed>,
    ConfigError,
>)
    ensures
        r is Ok <==> preconditions_compile(casl_config.commands@),
        r is Ok ==> routed_view(r->Ok_0@) == routes(
            casl_config.commands@,
            meta_result.phrase_raw@,
            meta_result.phrase@,
        ),
        r is Err ==> {
            &&& r->Err_0 is InvalidPattern
            &&& ({
                let k = r->Err_0->InvalidPattern_index as int;
                &&& 0 <= k < casl_config.commands@.len()
                &&& !regex_compiles(casl_config.commands@[k].precondition_spec(), true)
                &&& preconditions_compile(casl_config.commands@.subrange(0, k))
            })
        },
{
    let cmds = &casl_config.commands;
    let ghost raw = meta_result.phrase_raw@;
    let ghost phrase = meta_result.phrase@;
    let mut out: Vec<Routed> = Vec::new();
    let mut i: usize = 0;
    while i < cmds.len()
        invariant
            i <= cmds.len(),
            cmds@ == casl_config.commands@,
            raw == meta_result.phrase_raw@,
            phrase == meta_result.phrase@,
            preconditions_compile(cmds@.subrange(0, i as int)),
            routed_view(out@) == routes(cmds@.subrange(0, i as int), raw, phrase),
        decreases cmds.len() - i,
    {
        let cmd = &cmds[i];
        let ghost sub = cmds@.subrange(0, i + 1);
        assert(sub.drop_last() =~= cmds@.subrange(0, i as int));
        assert(sub.last() == *cmd);
        let text = if cmd.use_raw() {
            &meta_result.phrase_raw
        } else {
            &meta_result.phrase
        };
        match cmd.is_match(text.as_str()) {
            Some(m) => {
                if m {
                    let ghost before = out@;
                    out.push(Routed { index: i, text: text.clone() });
                    assert(routed_view(out@) =~= routed_view(before).push(
                        (i as int, text@),
                    ));
                }
                assert forall|j: int| 0 <= j < i + 1 implies regex_compiles(
                    #[trigger] sub[j].precondition_spec(),
                    true,
                ) by {
                    if j < i {
                        assert(sub[j] == cmds@.subrange(0, i as int)[j]);
                    }
                }
            },
            None => {
                assert(cmds@[i as int] == *cmd);
                assert(!regex_compiles(cmds@[i as int].precondition_spec(), true));
                return Err(ConfigError::InvalidPattern { index: i });
            },
        }
        i = i + 1;
    }
    assert(cmds@.subrange(0, cmds.len() as int) =~= cmds@);
    Ok(out)
}

} // verus!
