//! The process to launch: a server binary found on the search path, or the
//! managed script handed to the host's Node.js.
//!
//! Building a command walks through [`CommandPhase`]s in the same way a
//! resolution walks through its own; the resolution is one stretch of it.

use vstd::prelude::*;
use crate::error::{ServerError, ServerErrorView};
use crate::host::{Answer, AnswerView, HostCall, HostCallView, SERVER_BINARY, STDIO_FLAG};
use crate::resolver::{
    CucumberExtension, ResolvePhase, ResolvePhaseView, ResolveStep, ResolveStepView,
};

verus! {

/// A process ready to be spawned by the host.
#[derive(Debug, PartialEq, Eq)]
pub struct Command {
    /// Path of the executable.
    pub command: String,
    /// Arguments, in order.
    pub args: Vec<String>,
    /// Environment variables set for the process.
    pub env: Vec<(String, String)>,
}

/// Mathematical form of a [`Command`].
pub struct CommandView {
    pub command: Seq<char>,
    pub args: Seq<Seq<char>>,
    pub env: Seq<(Seq<char>, Seq<char>)>,
}

impl View for Command {
    type V = CommandView;

    open spec fn view(&self) -> CommandView {
        CommandView {
            command: self.command@,
            args: self.args.deep_view(),
            env: self.env.deep_view(),
        }
    }
}

/// The command that runs a server binary found on the search path.
pub open spec fn direct_command(binary: Seq<char>) -> CommandView {
    CommandView { command: binary, args: seq![STDIO_FLAG@], env: Seq::empty() }
}

/// The command that runs the managed script, given by its absolute path,
/// under the host's Node.js.
pub open spec fn node_command(node: Seq<char>, script: Seq<char>) -> CommandView {
    CommandView { command: node, args: seq![script, STDIO_FLAG@], env: Seq::empty() }
}

/// The call a command under construction is waiting on.
#[derive(Debug, PartialEq, Eq)]
pub enum CommandPhase {
    /// Waiting for the search-path lookup.
    Which,
    /// Nothing on the search path: the managed package is being resolved.
    Resolve(ResolvePhase),
    /// The script is settled; waiting for its absolute path.
    AbsolutePath { script: String },
    /// Waiting for the Node.js binary that will run `script`.
    NodeBinary { script: String },
}

/// Mathematical form of a [`CommandPhase`].
pub enum CommandPhaseView {
    Which,
    Resolve(ResolvePhaseView),
    AbsolutePath { script: Seq<char> },
    NodeBinary { script: Seq<char> },
}

impl View for CommandPhase {
    type V = CommandPhaseView;

    open spec fn view(&self) -> CommandPhaseView {
        match *self {
            CommandPhase::Which => CommandPhaseView::Which,
            CommandPhase::Resolve(phase) => CommandPhaseView::Resolve(phase@),
            CommandPhase::AbsolutePath { script } => CommandPhaseView::AbsolutePath {
                script: script@,
            },
            CommandPhase::NodeBinary { script } => CommandPhaseView::NodeBinary { script: script@ },
        }
    }
}

/// What one answer led to: another pending call, or the finished command.
#[derive(Debug, PartialEq, Eq)]
pub enum CommandStep {
    Continue(CommandPhase),
    Done(Result<Command, ServerError>),
}

/// Mathematical form of a [`CommandStep`].
pub enum CommandStepView {
    Continue(CommandPhaseView),
    Done(Result<CommandView, ServerErrorView>),
}

impl View for CommandStep {
    type V = CommandStepView;

    open spec fn view(&self) -> CommandStepView {
        match *self {
            CommandStep::Continue(phase) => CommandStepView::Continue(phase@),
            CommandStep::Done(Ok(command)) => CommandStepView::Done(Ok(command@)),
            CommandStep::Done(Err(error)) => CommandStepView::Done(Err(error@)),
        }
    }
}

impl CommandPhaseView {
    /// The call that is pending in this phase.
    pub open spec fn call(self) -> HostCallView {
        match self {
            CommandPhaseView::Which => HostCallView::Which { binary: SERVER_BINARY@ },
            CommandPhaseView::Resolve(phase) => phase.call(),
            CommandPhaseView::AbsolutePath { script } => HostCallView::AbsolutePath {
                relative: script,
            },
            CommandPhaseView::NodeBinary { .. } => HostCallView::NodeBinary,
        }
    }

    /// The flag after `answer` has been taken in this phase, and what follows.
    ///
    /// - A binary on the search path is run as it is; the managed package is
    ///   not looked at and the flag stays.
    /// - Without one, the managed package is resolved. A failure there ends
    ///   the construction unchanged; a path goes on to be made absolute.
    /// - The absolute path is then run under the host's Node.js; if that
    ///   cannot be located, the construction fails with the host's message.
    /// - An answer of another kind than the pending call brings back changes
    ///   nothing: the same call stays pending.
    pub open spec fn step(self, found: bool, answer: AnswerView) -> (bool, CommandStepView) {
        match (self, answer) {
            (CommandPhaseView::Which, AnswerView::Which(Some(binary))) => {
                (found, CommandStepView::Done(Ok(direct_command(binary))))
            },
            (CommandPhaseView::Which, AnswerView::Which(None)) => {
                (
                    found,
                    CommandStepView::Continue(
                        CommandPhaseView::Resolve(ResolvePhaseView::ScriptCheck),
                    ),
                )
            },
            (CommandPhaseView::Resolve(phase), _) => {
                let (found_after, step) = phase.step(found, answer);
                match step {
                    ResolveStepView::Continue(next) => (
                        found_after,
                        CommandStepView::Continue(CommandPhaseView::Resolve(next)),
                    ),
                    ResolveStepView::Done(Ok(script)) => (
                        found_after,
                        CommandStepView::Continue(CommandPhaseView::AbsolutePath { script }),
                    ),
                    ResolveStepView::Done(Err(error)) => (
                        found_after,
                        CommandStepView::Done(Err(error)),
                    ),
                }
            },
            (CommandPhaseView::AbsolutePath { .. }, AnswerView::AbsolutePath(path)) => {
                (found, CommandStepView::Continue(CommandPhaseView::NodeBinary { script: path }))
            },
            (CommandPhaseView::NodeBinary { script }, AnswerView::NodeBinary(Ok(node))) => {
                (found, CommandStepView::Done(Ok(node_command(node, script))))
            },
            (CommandPhaseView::NodeBinary { .. }, AnswerView::NodeBinary(Err(text))) => {
                (found, CommandStepView::Done(Err(ServerErrorView::Interpreter(text))))
            },
            _ => (found, CommandStepView::Continue(self)),
        }
    }
}

impl CommandPhase {
    /// The phase in which every construction begins.
    pub fn start() -> (phase: CommandPhase)
        ensures
            phase@ == CommandPhaseView::Which,
    {
        CommandPhase::Which
    }

    /// The call the host is to make now.
    pub fn call(&self) -> (call: HostCall)
        ensures
            call@ == self@.call(),
    {
        match self {
            CommandPhase::Which => HostCall::Which { binary: SERVER_BINARY },
            CommandPhase::Resolve(phase) => phase.call(),
            CommandPhase::AbsolutePath { script } => HostCall::AbsolutePath {
                relative: script.clone(),
            },
            CommandPhase::NodeBinary { .. } => HostCall::NodeBinary,
        }
    }
}

impl Command {
    /// Runs `binary` itself, speaking over standard input and output.
    pub fn direct(binary: String) -> (command: Command)
        ensures
            command@ == direct_command(binary@),
    {
        let mut args: Vec<String> = Vec::new();
        args.push(STDIO_FLAG.to_string());
        let env: Vec<(String, String)> = Vec::new();
        let command = Command { command: binary, args, env };
        assert(command.args.deep_view() =~= seq![STDIO_FLAG@]);
        assert(command.env.deep_view() =~= Seq::empty());
        command
    }

    /// Runs `script` under `node`, speaking over standard input and output.
    pub fn with_node(node: String, script: String) -> (command: Command)
        ensures
            command@ == node_command(node@, script@),
    {
        let mut args: Vec<String> = Vec::new();
        args.push(script);
        args.push(STDIO_FLAG.to_string());
        let env: Vec<(String, String)> = Vec::new();
        let command = Command { command: node, args, env };
        assert(command.args.deep_view() =~= seq![script@, STDIO_FLAG@]);
        assert(command.env.deep_view() =~= Seq::empty());
        command
    }
}

impl CucumberExtension {
    /// Takes the host's `answer` to the call pending in `phase` and decides
    /// how the construction goes on, as [`CommandPhaseView::step`] lays down.
    pub fn language_server_command(&mut self, phase: CommandPhase, answer: Answer) -> (step:
        CommandStep)
        ensures
            final(self).found() == phase@.step(old(self).found(), answer@).0,
            step@ == phase@.step(old(self).found(), answer@).1,
    {
        match (phase, answer) {
            (CommandPhase::Which, Answer::Which(Some(binary))) => {
                CommandStep::Done(Ok(Command::direct(binary)))
            },
            (CommandPhase::Which, Answer::Which(None)) => {
                CommandStep::Continue(CommandPhase::Resolve(ResolvePhase::start()))
            },
            (CommandPhase::Resolve(phase), answer) => {
                match self.server_script_path(phase, answer) {
                    ResolveStep::Continue(next) => CommandStep::Continue(
                        CommandPhase::Resolve(next),
                    ),
                    ResolveStep::Done(Ok(script)) => CommandStep::Continue(
                        CommandPhase::AbsolutePath { script },
                    ),
                    ResolveStep::Done(Err(error)) => CommandStep::Done(Err(error)),
                }
            },
            (CommandPhase::AbsolutePath { .. }, Answer::AbsolutePath(path)) => {
                CommandStep::Continue(CommandPhase::NodeBinary { script: path })
            },
            (CommandPhase::NodeBinary { script }, Answer::NodeBinary(Ok(node))) => {
                CommandStep::Done(Ok(Command::with_node(node, script)))
            },
            (CommandPhase::NodeBinary { .. }, Answer::NodeBinary(Err(text))) => {
                CommandStep::Done(Err(ServerError::Interpreter(text)))
            },
            (phase, _) => CommandStep::Continue(phase),
        }
    }
}

} // verus!
