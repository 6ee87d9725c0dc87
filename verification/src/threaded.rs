//! The caller's end of a threaded engine: commands go out through one
//! queue, search results come back through another, and no call waits for
//! the engine.

pub mod control;
pub mod laws;

use crate::error::{Error, ErrorView};
use crate::protocol::{
    clone_optional, BestMoveParams, BestMoveParamsView, CheckmateParams, CheckmateParamsView,
    EngineCommand, EngineCommandView, EngineOutput, EngineOutputView, GuiCommand, GuiCommandView,
    MateParam, ThinkParams,
};
use std::collections::VecDeque;
use std::time::Duration;
use vstd::prelude::*;

pub use control::{EngineThread, Stage, ThreadAction, ThreadEvent};

verus! {

/// How long, in seconds, the construction of a facade waits for the engine's
/// name before it settles for [`unknown_engine`].
pub const HANDSHAKE_TIMEOUT_SECS: u64 = 10;

/// The move result that stands for a resignation and for a mate search
/// that found no move.
pub open spec fn resign() -> Seq<char> {
    "resign"@
}

/// The name of an engine whose name did not arrive in time.
pub open spec fn unknown_engine() -> Seq<char> {
    "Unknown Engine"@
}

/// The message of the failure to find a working directory.
pub open spec fn no_working_dir() -> Seq<char> {
    "Could not determine engine working directory"@
}

/// How to start an engine.
#[derive(Debug, Clone)]
pub struct EngineConfig {
    /// Path of the engine executable.
    pub path: String,
    /// Working directory of the engine; the directory of the executable
    /// where none is given.
    pub working_dir: Option<String>,
    /// Options to send before the handshake, in this order.
    pub pre_handshake_options: Vec<(String, Option<String>)>,
}

/// Model of an option to set: its name and, optionally, its value.
pub type SettingView = (Seq<char>, Option<Seq<char>>);

/// Model of an [`EngineConfig`].
pub struct EngineConfigView {
    pub path: Seq<char>,
    pub working_dir: Option<Seq<char>>,
    pub pre_handshake_options: Seq<SettingView>,
}

impl View for EngineConfig {
    type V = EngineConfigView;

    open spec fn view(&self) -> EngineConfigView {
        EngineConfigView {
            path: self.path@,
            working_dir: self.working_dir.deep_view(),
            pre_handshake_options: self.pre_handshake_options.deep_view(),
        }
    }
}

impl EngineConfigView {
    /// The directory the engine runs in: the one configured, else the
    /// directory that holds the executable, if there is one.
    pub open spec fn resolved_working_dir(self, parent: Option<Seq<char>>) -> Option<Seq<char>> {
        match self.working_dir {
            Some(dir) => Some(dir),
            None => parent,
        }
    }
}

impl EngineConfig {
    /// The directory the engine runs in, given the directory that holds the
    /// executable (`None` where the path has none). Fails where neither the
    /// configuration nor the path names a directory.
    pub fn resolve_working_dir(&self, parent: Option<String>) -> (dir: Result<String, Error>)
        ensures
            match self@.resolved_working_dir(parent.deep_view()) {
                Some(resolved) => dir matches Ok(dir) && dir@ == resolved,
                None => dir matches Err(error) && error@ == ErrorView::EngineIo(no_working_dir()),
            },
    {
        match &self.working_dir {
            Some(dir) => Ok(dir.clone()),
            None => match parent {
                Some(dir) => Ok(dir),
                None => Err(
                    Error::EngineIo("Could not determine engine working directory".to_string()),
                ),
            },
        }
    }
}

/// An order from the caller to the thread that controls the engine.
#[derive(Debug, PartialEq, Eq)]
pub enum ThreadCommand {
    SetOption { name: String, value: Option<String> },
    IsReady,
    Position { sfen: String },
    Go(ThinkParams),
    Stop,
    Quit,
}

/// Model of a [`ThreadCommand`].
pub enum ThreadCommandView {
    SetOption { name: Seq<char>, value: Option<Seq<char>> },
    IsReady,
    Position { sfen: Seq<char> },
    Go(ThinkParams),
    Stop,
    Quit,
}

impl View for ThreadCommand {
    type V = ThreadCommandView;

    open spec fn view(&self) -> ThreadCommandView {
        match self {
            ThreadCommand::SetOption { name, value } => ThreadCommandView::SetOption {
                name: name@,
                value: value.deep_view(),
            },
            ThreadCommand::IsReady => ThreadCommandView::IsReady,
            ThreadCommand::Position { sfen } => ThreadCommandView::Position { sfen: sfen@ },
            ThreadCommand::Go(params) => ThreadCommandView::Go(*params),
            ThreadCommand::Stop => ThreadCommandView::Stop,
            ThreadCommand::Quit => ThreadCommandView::Quit,
        }
    }
}

impl DeepView for ThreadCommand {
    type V = ThreadCommandView;

    open spec fn deep_view(&self) -> ThreadCommandView {
        self@
    }
}

impl ThreadCommandView {
    /// The protocol command that carries out this order.
    pub open spec fn gui_command(self) -> GuiCommandView {
        match self {
            ThreadCommandView::SetOption { name, value } => GuiCommandView::SetOption(name, value),
            ThreadCommandView::IsReady => GuiCommandView::IsReady,
            ThreadCommandView::Position { sfen } => GuiCommandView::Position(sfen),
            ThreadCommandView::Go(params) => GuiCommandView::Go(params),
            ThreadCommandView::Stop => GuiCommandView::Stop,
            ThreadCommandView::Quit => GuiCommandView::Quit,
        }
    }
}

impl ThreadCommand {
    /// Turns the order into the protocol command that carries it out.
    pub fn into_gui(self) -> (command: GuiCommand)
        ensures
            command@ == self@.gui_command(),
    {
        match self {
            ThreadCommand::SetOption { name, value } => GuiCommand::SetOption(name, value),
            ThreadCommand::IsReady => GuiCommand::IsReady,
            ThreadCommand::Position { sfen } => GuiCommand::Position(sfen),
            ThreadCommand::Go(params) => GuiCommand::Go(params),
            ThreadCommand::Stop => GuiCommand::Stop,
            ThreadCommand::Quit => GuiCommand::Quit,
        }
    }

    /// Whether this is the order to quit.
    pub fn is_quit(&self) -> (quit: bool)
        ensures
            quit == (self@ is Quit),
    {
        match self {
            ThreadCommand::Quit => true,
            _ => false,
        }
    }
}

/// The move result that an engine output amounts to, if any.
///
/// A best move yields the move, without the ponder move. A resignation
/// yields [`resign`]. A declared win yields nothing. The result of a mate
/// search yields the first move of the mating line where there is one, and
/// [`resign`] where there is none. Every other output yields nothing.
pub open spec fn move_result(output: EngineOutputView) -> Option<Seq<char>> {
    match output.response {
        Some(EngineCommandView::BestMove(best)) => match best {
            BestMoveParamsView::MakeMove(best, _) => Some(best),
            BestMoveParamsView::Resign => Some(resign()),
            BestMoveParamsView::Win => None,
        },
        Some(EngineCommandView::Checkmate(mate)) => match mate {
            CheckmateParamsView::Mate(line) => if line.len() > 0 {
                Some(line[0])
            } else {
                Some(resign())
            },
            _ => Some(resign()),
        },
        _ => None,
    }
}

/// The move results that a run of engine outputs amounts to, in the order
/// of the outputs.
pub open spec fn move_results(outputs: Seq<EngineOutputView>) -> Seq<Seq<char>>
    decreases outputs.len(),
{
    if outputs.len() == 0 {
        Seq::empty()
    } else {
        let earlier = move_results(outputs.drop_last());
        match move_result(outputs.last()) {
            Some(result) => earlier.push(result),
            None => earlier,
        }
    }
}

/// Model of a [`ThreadedEngine`].
pub struct FacadeView {
    /// The engine's name as it was known when the facade was made.
    pub name: Seq<char>,
    /// The orders not yet taken by the controlling thread, oldest first.
    pub commands: Seq<ThreadCommandView>,
    /// The move results not yet polled, oldest first.
    pub moves: Seq<Seq<char>>,
}

impl FacadeView {
    /// This facade with one more order at the end of the queue.
    pub open spec fn enqueue(self, command: ThreadCommandView) -> FacadeView {
        FacadeView { commands: self.commands.push(command), ..self }
    }

    /// This facade with one more move result at the end of the queue.
    pub open spec fn deliver(self, result: Seq<char>) -> FacadeView {
        FacadeView { moves: self.moves.push(result), ..self }
    }

    /// This facade after the controlling thread asked for an order, and the
    /// order it got: the oldest one, if there is one.
    pub open spec fn next_command(self) -> (FacadeView, Option<ThreadCommandView>) {
        if self.commands.len() > 0 {
            (
                FacadeView { commands: self.commands.drop_first(), ..self },
                Some(self.commands[0]),
            )
        } else {
            (self, None)
        }
    }

    /// This facade after a poll, and the move result polled: the oldest
    /// one, if there is one.
    pub open spec fn poll_move(self) -> (FacadeView, Option<Seq<char>>) {
        if self.moves.len() > 0 {
            (FacadeView { moves: self.moves.drop_first(), ..self }, Some(self.moves[0]))
        } else {
            (self, None)
        }
    }

    /// This facade after the listener saw an output.
    pub open spec fn observe(self, output: EngineOutputView) -> FacadeView {
        match move_result(output) {
            Some(result) => self.deliver(result),
            None => self,
        }
    }
}

/// The caller's end of an engine that is driven by a thread of its own.
///
/// Every order is put in a queue for the controlling thread and the call
/// returns at once. Move results wait in a second queue until they are
/// polled.
#[derive(Debug)]
pub struct ThreadedEngine {
    commands: VecDeque<ThreadCommand>,
    moves: VecDeque<String>,
    engine_name: String,
}

impl View for ThreadedEngine {
    type V = FacadeView;

    closed spec fn view(&self) -> FacadeView {
        FacadeView {
            name: self.engine_name@,
            commands: self.commands.deep_view(),
            moves: self.moves.deep_view(),
        }
    }
}

impl ThreadedEngine {
    /// Makes the facade of an engine, given the directory that holds the
    /// executable and the name that the controlling thread reported in
    /// time, if it reported one.
    ///
    /// Fails where no working directory can be found for the engine.
    /// Otherwise the facade is made whatever became of the engine: its name
    /// is the reported one, or [`unknown_engine`] where none came in time,
    /// and both queues are empty.
    pub fn spawn(
        config: &EngineConfig,
        parent: Option<String>,
        reported: Option<String>,
    ) -> (engine: Result<ThreadedEngine, Error>)
        ensures
            match config@.resolved_working_dir(parent.deep_view()) {
                Some(_) => engine matches Ok(engine) && engine@ == (FacadeView {
                    name: match reported {
                        Some(name) => name@,
                        None => unknown_engine(),
                    },
                    commands: Seq::empty(),
                    moves: Seq::empty(),
                }),
                None => engine matches Err(error) && error@ == ErrorView::EngineIo(
                    no_working_dir(),
                ),
            },
    {
        match config.resolve_working_dir(parent) {
            Ok(_) => {
                let engine_name = match reported {
                    Some(name) => name,
                    None => "Unknown Engine".to_string(),
                };
                let engine = ThreadedEngine {
                    commands: VecDeque::new(),
                    moves: VecDeque::new(),
                    engine_name,
                };
                assert(engine.commands.deep_view() =~= Seq::empty());
                assert(engine.moves.deep_view() =~= Seq::empty());
                Ok(engine)
            },
            Err(error) => Err(error),
        }
    }

    /// The engine's name as it was known when the facade was made.
    pub fn name(&self) -> (name: &str)
        ensures
            name@ == self@.name,
    {
        self.engine_name.as_str()
    }

    fn enqueue(&mut self, command: ThreadCommand)
        ensures
            final(self)@ == old(self)@.enqueue(command@),
    {
        self.commands.push_back(command);
        assert(self.commands.deep_view() =~= old(self).commands.deep_view().push(command@));
    }

    /// Orders the position to be set.
    pub fn set_position(&mut self, sfen: &str)
        ensures
            final(self)@ == old(self)@.enqueue(ThreadCommandView::Position { sfen: sfen@ }),
    {
        self.enqueue(ThreadCommand::Position { sfen: sfen.to_string() });
    }

    /// Orders a search with the given parameters.
    pub fn go(&mut self, params: ThinkParams)
        ensures
            final(self)@ == old(self)@.enqueue(ThreadCommandView::Go(params)),
    {
        self.enqueue(ThreadCommand::Go(params));
    }

    /// Orders a search with a per-move time allowance.
    pub fn go_byoyomi(&mut self, time: Duration)
        ensures
            final(self)@ == old(self)@.enqueue(
                ThreadCommandView::Go(
                    ThinkParams { byoyomi: Some(time), ..ThinkParams::unset() },
                ),
            ),
    {
        self.go(ThinkParams::new().byoyomi(time));
    }

    /// Orders a search without a time limit.
    pub fn go_infinite(&mut self)
        ensures
            final(self)@ == old(self)@.enqueue(
                ThreadCommandView::Go(ThinkParams { infinite: true, ..ThinkParams::unset() }),
            ),
    {
        self.go(ThinkParams::new().infinite());
    }

    /// Orders a mate search, limited by `timeout` where one is given.
    pub fn go_mate(&mut self, timeout: Option<Duration>)
        ensures
            final(self)@ == old(self)@.enqueue(
                ThreadCommandView::Go(
                    ThinkParams {
                        mate: Some(
                            match timeout {
                                Some(limit) => MateParam::Timeout(limit),
                                None => MateParam::Infinite,
                            },
                        ),
                        ..ThinkParams::unset()
                    },
                ),
            ),
    {
        let params = match timeout {
            Some(limit) => ThinkParams::new().mate(MateParam::Timeout(limit)),
            None => ThinkParams::new().mate(MateParam::Infinite),
        };
        self.go(params);
    }

    /// Takes the oldest move result out of the queue. `None` says no more
    /// than that no result is waiting: the engine may still be searching,
    /// or may be gone.
    pub fn poll_move(&mut self) -> (result: Option<String>)
        ensures
            final(self)@ == old(self)@.poll_move().0,
            result.deep_view() == old(self)@.poll_move().1,
            result is None <==> old(self)@.moves.len() == 0,
    {
        let result = self.moves.pop_front();
        assert(self.moves.deep_view() =~= old(self)@.poll_move().0.moves);
        result
    }

    /// Orders the search under way to stop.
    pub fn stop(&mut self)
        ensures
            final(self)@ == old(self)@.enqueue(ThreadCommandView::Stop),
    {
        self.enqueue(ThreadCommand::Stop);
    }

    /// Orders an engine option to be set.
    pub fn set_option(&mut self, name: &str, value: Option<&str>)
        ensures
            final(self)@ == old(self)@.enqueue(
                ThreadCommandView::SetOption {
                    name: name@,
                    value: match value {
                        Some(value) => Some(value@),
                        None => None,
                    },
                },
            ),
    {
        let value = match value {
            Some(value) => Some(value.to_string()),
            None => None,
        };
        self.enqueue(ThreadCommand::SetOption { name: name.to_string(), value });
    }

    /// Orders a readiness query.
    pub fn is_ready(&mut self)
        ensures
            final(self)@ == old(self)@.enqueue(ThreadCommandView::IsReady),
    {
        self.enqueue(ThreadCommand::IsReady);
    }

    /// Orders the engine to quit. This is the last order of a facade: the
    /// controlling thread ends when it has carried it out.
    pub fn quit(&mut self)
        ensures
            final(self)@ == old(self)@.enqueue(ThreadCommandView::Quit),
    {
        self.enqueue(ThreadCommand::Quit);
    }

    /// Takes the oldest order out of the queue, for the controlling thread.
    pub fn next_command(&mut self) -> (command: Option<ThreadCommand>)
        ensures
            final(self)@ == old(self)@.next_command().0,
            command.deep_view() == old(self)@.next_command().1,
            command is None <==> old(self)@.commands.len() == 0,
    {
        let command = self.commands.pop_front();
        assert(self.commands.deep_view() =~= old(self)@.next_command().0.commands);
        command
    }

    /// Puts a move result at the end of the queue.
    pub fn deliver(&mut self, result: String)
        ensures
            final(self)@ == old(self)@.deliver(result@),
    {
        self.moves.push_back(result);
        assert(self.moves.deep_view() =~= old(self).moves.deep_view().push(result@));
    }

    /// The move result that an engine output amounts to, if any: what the
    /// listener of a threaded engine passes on to the caller.
    pub fn move_result(output: &EngineOutput) -> (result: Option<String>)
        ensures
            result.deep_view() == move_result(output@),
    {
        match &output.response {
            Some(EngineCommand::BestMove(best)) => match best {
                BestMoveParams::MakeMove(best, _) => Some(best.clone()),
                BestMoveParams::Resign => Some("resign".to_string()),
                BestMoveParams::Win => None,
            },
            Some(EngineCommand::Checkmate(mate)) => match mate {
                CheckmateParams::Mate(line) => if line.len() > 0 {
                    Some(line[0].clone())
                } else {
                    Some("resign".to_string())
                },
                _ => Some("resign".to_string()),
            },
            _ => None,
        }
    }
}

} // verus!
