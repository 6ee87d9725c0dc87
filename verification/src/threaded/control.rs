//! The thread that controls the engine, as a state machine: it is told what
//! happened and says what to do next.

use crate::error::{unit_view, Error, ErrorView};
use crate::process::engine::{
    Effect, EffectView, HandlerView, Outcome, OutcomeView, Pending, Progress, ProgressView,
    Request, UsiEngineHandler,
};
use crate::process::listener::{Listener, ListenerState};
use crate::protocol::{clone_optional, GuiCommand, GuiCommandView};
use crate::threaded::{
    EngineConfig, SettingView, ThreadCommand, ThreadCommandView, ThreadedEngine,
};
use vstd::prelude::*;

verus! {

/// The name reported for an engine that could not be launched.
pub open spec fn engine_failed() -> Seq<char> {
    "Engine Failed"@
}

/// The name reported for an engine whose handshake failed.
pub open spec fn unknown() -> Seq<char> {
    "Unknown"@
}

/// Where the controlling thread stands.
#[derive(Clone, Copy, Debug, PartialEq, Eq)]
pub enum Stage {
    /// Not started.
    Created,
    /// Waiting for the launch of the process.
    Launching,
    /// Sending the options that precede the handshake.
    Options,
    /// In the handshake.
    Handshake,
    /// Reporting the engine's name.
    Naming,
    /// In the readiness query.
    Preparing,
    /// Sending the new-game command.
    NewGame,
    /// Starting the listener.
    HandingOff,
    /// Waiting for an order.
    Receiving,
    /// Sending the command of an order.
    Serving,
    /// Sending the command of the order to quit.
    Quitting,
    /// Ending the engine.
    Teardown,
    /// Reporting that the engine could not be launched.
    Failing,
    /// Ended.
    Exited,
}

/// What the controlling thread is told.
#[derive(Debug)]
pub enum ThreadEvent {
    /// The thread starts, or the last action is done and has nothing to
    /// say.
    Ready,
    /// The launch of the process went like this.
    Launched(Result<(), Error>),
    /// The last action on the process went like this.
    Engine(Outcome),
    /// An order arrived.
    Command(ThreadCommand),
    /// No order will arrive any more.
    Disconnected,
}

/// Model of a [`ThreadEvent`].
pub enum ThreadEventView {
    Ready,
    Launched(Result<(), ErrorView>),
    Engine(OutcomeView),
    Command(ThreadCommandView),
    Disconnected,
}

impl View for ThreadEvent {
    type V = ThreadEventView;

    open spec fn view(&self) -> ThreadEventView {
        match self {
            ThreadEvent::Ready => ThreadEventView::Ready,
            ThreadEvent::Launched(launched) => ThreadEventView::Launched(unit_view(*launched)),
            ThreadEvent::Engine(outcome) => ThreadEventView::Engine(outcome@),
            ThreadEvent::Command(command) => ThreadEventView::Command(command@),
            ThreadEvent::Disconnected => ThreadEventView::Disconnected,
        }
    }
}

/// What the controlling thread does next.
#[derive(Debug)]
pub enum ThreadAction {
    /// Launch the engine process, then say how it went.
    Launch { path: String, working_dir: String },
    /// Do this on the process, then say how it went.
    Engine(Effect),
    /// Report this name to whoever made the facade.
    Report(String),
    /// Start the listening loop, with [`ThreadedEngine::move_result`] as
    /// what passes results on to the caller.
    Listen(Listener),
    /// Wait for the next order.
    Receive,
    /// End the thread.
    Exit,
}

/// Model of a [`ThreadAction`].
pub enum ThreadActionView {
    Launch { path: Seq<char>, working_dir: Seq<char> },
    Engine(EffectView),
    Report(Seq<char>),
    Listen(ListenerState),
    Receive,
    Exit,
}

impl View for ThreadAction {
    type V = ThreadActionView;

    open spec fn view(&self) -> ThreadActionView {
        match self {
            ThreadAction::Launch { path, working_dir } => ThreadActionView::Launch {
                path: path@,
                working_dir: working_dir@,
            },
            ThreadAction::Engine(effect) => ThreadActionView::Engine(effect@),
            ThreadAction::Report(name) => ThreadActionView::Report(name@),
            ThreadAction::Listen(listener) => ThreadActionView::Listen(listener@),
            ThreadAction::Receive => ThreadActionView::Receive,
            ThreadAction::Exit => ThreadActionView::Exit,
        }
    }
}

/// Model of an [`EngineThread`].
pub struct ThreadView {
    pub stage: Stage,
    /// The session with the engine; meaningful once the process is
    /// launched.
    pub handler: HandlerView,
    pub path: Seq<char>,
    pub working_dir: Seq<char>,
    /// The options that precede the handshake.
    pub options: Seq<SettingView>,
    /// How many of them have been dealt with.
    pub next_option: nat,
}

impl ThreadView {
    /// This thread in another stage.
    pub open spec fn at(self, stage: Stage) -> ThreadView {
        ThreadView { stage, ..self }
    }

    /// This thread with its handler in another state.
    pub open spec fn with(self, handler: HandlerView) -> ThreadView {
        ThreadView { handler, ..self }
    }

    /// Ends the engine: the handler is asked to kill it.
    pub open spec fn tear_down(self) -> (ThreadView, ThreadActionView) {
        let (handler, progress) = self.handler.begin(Request::Kill);
        self.with(handler).at(Stage::Teardown).after_teardown(progress)
    }

    /// While ending the engine: whatever the handler asks is done; when it
    /// has finished, however it went, the thread ends.
    pub open spec fn after_teardown(self, progress: ProgressView) -> (
        ThreadView,
        ThreadActionView,
    ) {
        match progress {
            ProgressView::Perform(effect) => (self, ThreadActionView::Engine(effect)),
            _ => (self.at(Stage::Exited), ThreadActionView::Exit),
        }
    }

    /// Carries out an order: its command is sent.
    pub open spec fn serve(self, command: ThreadCommandView) -> (ThreadView, ThreadActionView) {
        let (handler, progress) = self.handler.begin(Request::Send(command.gui_command()));
        let stage = if command is Quit {
            Stage::Quitting
        } else {
            Stage::Serving
        };
        self.with(handler).at(stage).after_serving(progress)
    }

    /// While sending the command of an order: when the handler has
    /// finished, however it went, the thread waits for the next order,
    /// unless the order was to quit: then it ends the engine.
    pub open spec fn after_serving(self, progress: ProgressView) -> (
        ThreadView,
        ThreadActionView,
    ) {
        match progress {
            ProgressView::Perform(effect) => (self, ThreadActionView::Engine(effect)),
            _ => if self.stage == Stage::Quitting {
                self.tear_down()
            } else {
                (self.at(Stage::Receiving), ThreadActionView::Receive)
            },
        }
    }

    /// Hands the output stream to a listener; where the handler does not
    /// grant it, the engine is ended.
    pub open spec fn hand_off(self) -> (ThreadView, ThreadActionView) {
        let (handler, granted) = self.handler.listen();
        if granted {
            (
                self.with(handler).at(Stage::HandingOff),
                ThreadActionView::Listen(ListenerState::Created),
            )
        } else {
            self.with(handler).tear_down()
        }
    }

    /// Sends the new-game command.
    pub open spec fn new_game(self) -> (ThreadView, ThreadActionView) {
        let (handler, progress) = self.handler.begin(Request::Send(GuiCommandView::UsiNewGame));
        self.with(handler).at(Stage::NewGame).after_new_game(progress)
    }

    /// While sending the new-game command: once it is sent the listener is
    /// started; where it cannot be sent, the engine is ended.
    pub open spec fn after_new_game(self, progress: ProgressView) -> (
        ThreadView,
        ThreadActionView,
    ) {
        match progress {
            ProgressView::Perform(effect) => (self, ThreadActionView::Engine(effect)),
            ProgressView::Done => self.hand_off(),
            _ => self.tear_down(),
        }
    }

    /// Starts the readiness query.
    pub open spec fn ask(self) -> (ThreadView, ThreadActionView) {
        let (handler, progress) = self.handler.begin(Request::Prepare);
        self.with(handler).at(Stage::Preparing).after_prepare(progress)
    }

    /// In the readiness query: once the engine is ready the new-game
    /// command is sent; where the query fails, the engine is ended.
    pub open spec fn after_prepare(self, progress: ProgressView) -> (
        ThreadView,
        ThreadActionView,
    ) {
        match progress {
            ProgressView::Perform(effect) => (self, ThreadActionView::Engine(effect)),
            ProgressView::Done => self.new_game(),
            _ => self.tear_down(),
        }
    }

    /// Starts the handshake.
    pub open spec fn greet(self) -> (ThreadView, ThreadActionView) {
        let (handler, progress) = self.handler.begin(Request::GetInfo);
        self.with(handler).at(Stage::Handshake).after_handshake(progress)
    }

    /// In the handshake: when it has succeeded the engine's name is
    /// reported, when it has failed [`unknown`] is reported in its place.
    pub open spec fn after_handshake(self, progress: ProgressView) -> (
        ThreadView,
        ThreadActionView,
    ) {
        match progress {
            ProgressView::Perform(effect) => (self, ThreadActionView::Engine(effect)),
            ProgressView::Info(info) => (
                self.at(Stage::Naming),
                ThreadActionView::Report(info.name),
            ),
            _ => (self.at(Stage::Naming), ThreadActionView::Report(unknown())),
        }
    }

    /// Sends the next option that precedes the handshake; an option that
    /// the handler refuses is passed over. After the last one the
    /// handshake starts.
    pub open spec fn apply_options(self) -> (ThreadView, ThreadActionView)
        decreases self.options.len() - self.next_option,
    {
        if self.next_option < self.options.len() {
            let (name, value) = self.options[self.next_option as int];
            let (handler, progress) = self.handler.begin(
                Request::SendBeforeHandshake(GuiCommandView::SetOption(name, value)),
            );
            let next = ThreadView { handler, next_option: self.next_option + 1, ..self };
            match progress {
                ProgressView::Perform(effect) => (next, ThreadActionView::Engine(effect)),
                _ => next.apply_options(),
            }
        } else {
            self.greet()
        }
    }

    /// While sending an option: when the handler has finished, however it
    /// went, the next option is due.
    pub open spec fn after_option(self, progress: ProgressView) -> (
        ThreadView,
        ThreadActionView,
    ) {
        match progress {
            ProgressView::Perform(effect) => (self, ThreadActionView::Engine(effect)),
            _ => self.apply_options(),
        }
    }

    /// While something is being done on the process: the handler is told
    /// how it went, and what it answers decides by the stage.
    pub open spec fn after_engine(self, outcome: OutcomeView) -> (ThreadView, ThreadActionView) {
        let (handler, progress) = self.handler.resume(outcome);
        let thread = self.with(handler);
        match self.stage {
            Stage::Options => thread.after_option(progress),
            Stage::Handshake => thread.after_handshake(progress),
            Stage::Preparing => thread.after_prepare(progress),
            Stage::NewGame => thread.after_new_game(progress),
            Stage::Serving => thread.after_serving(progress),
            Stage::Quitting => thread.after_serving(progress),
            _ => thread.after_teardown(progress),
        }
    }

    /// Whether the thread is doing something on the process.
    pub open spec fn on_engine(self) -> bool {
        self.stage == Stage::Options || self.stage == Stage::Handshake || self.stage
            == Stage::Preparing || self.stage == Stage::NewGame || self.stage == Stage::Serving
            || self.stage == Stage::Quitting || self.stage == Stage::Teardown
    }

    /// The thread after an event, and what it does next.
    ///
    /// The thread launches the process. Where that fails it reports
    /// [`engine_failed`] and ends. Otherwise it sends the options that
    /// precede the handshake, performs the handshake and reports the name,
    /// asks for readiness, sends the new-game command, starts the listener
    /// and then carries out orders one by one until the order to quit, or
    /// until no order can arrive any more; then it ends the engine and
    /// itself. An event that does not answer the last action ends the
    /// thread at once.
    pub open spec fn step(self, event: ThreadEventView) -> (ThreadView, ThreadActionView) {
        match (self.stage, event) {
            (Stage::Created, ThreadEventView::Ready) => (
                self.at(Stage::Launching),
                ThreadActionView::Launch { path: self.path, working_dir: self.working_dir },
            ),
            (Stage::Launching, ThreadEventView::Launched(Ok(()))) => (ThreadView {
                stage: Stage::Options,
                handler: HandlerView::fresh(),
                next_option: 0,
                ..self
            }).apply_options(),
            (Stage::Launching, ThreadEventView::Launched(Err(_))) => (
                self.at(Stage::Failing),
                ThreadActionView::Report(engine_failed()),
            ),
            (Stage::Failing, ThreadEventView::Ready) => (
                self.at(Stage::Exited),
                ThreadActionView::Exit,
            ),
            (Stage::Naming, ThreadEventView::Ready) => self.ask(),
            (Stage::HandingOff, ThreadEventView::Ready) => (
                self.at(Stage::Receiving),
                ThreadActionView::Receive,
            ),
            (Stage::Receiving, ThreadEventView::Command(command)) => self.serve(command),
            (Stage::Receiving, ThreadEventView::Disconnected) => self.tear_down(),
            (_, ThreadEventView::Engine(outcome)) => if self.on_engine() {
                self.after_engine(outcome)
            } else {
                (self.at(Stage::Exited), ThreadActionView::Exit)
            },
            _ => (self.at(Stage::Exited), ThreadActionView::Exit),
        }
    }

    /// The thread after a run of events, and the actions it took, one for
    /// each event.
    pub open spec fn run(self, events: Seq<ThreadEventView>) -> (
        ThreadView,
        Seq<ThreadActionView>,
    )
        decreases events.len(),
    {
        if events.len() == 0 {
            (self, Seq::empty())
        } else {
            let (before, actions) = self.run(events.drop_last());
            let (after, action) = before.step(events.last());
            (after, actions.push(action))
        }
    }
}

/// The thread that controls one engine.
#[derive(Debug)]
pub struct EngineThread {
    stage: Stage,
    handler: UsiEngineHandler,
    path: String,
    working_dir: String,
    options: Vec<(String, Option<String>)>,
    next_option: usize,
}

impl View for EngineThread {
    type V = ThreadView;

    closed spec fn view(&self) -> ThreadView {
        ThreadView {
            stage: self.stage,
            handler: self.handler@,
            path: self.path@,
            working_dir: self.working_dir@,
            options: self.options.deep_view(),
            next_option: self.next_option as nat,
        }
    }
}

impl EngineThread {
    /// The controlling thread of the engine that `config` describes, given
    /// the directory that holds the executable. Fails where no working
    /// directory can be found for the engine.
    pub fn new(config: EngineConfig, parent: Option<String>) -> (thread: Result<
        EngineThread,
        Error,
    >)
        ensures
            match config@.resolved_working_dir(parent.deep_view()) {
                Some(dir) => thread matches Ok(thread) && thread@ == (ThreadView {
                    stage: Stage::Created,
                    handler: HandlerView::fresh(),
                    path: config@.path,
                    working_dir: dir,
                    options: config@.pre_handshake_options,
                    next_option: 0,
                }),
                None => thread matches Err(error) && error@ == ErrorView::EngineIo(
                    crate::threaded::no_working_dir(),
                ),
            },
    {
        let resolved = config.resolve_working_dir(parent);
        match resolved {
            Ok(working_dir) => Ok(
                EngineThread {
                    stage: Stage::Created,
                    handler: UsiEngineHandler::fresh(),
                    path: config.path,
                    working_dir,
                    options: config.pre_handshake_options,
                    next_option: 0,
                },
            ),
            Err(error) => Err(error),
        }
    }

    /// Where the thread stands.
    pub fn stage(&self) -> (stage: Stage)
        ensures
            stage == self@.stage,
    {
        self.stage
    }

    fn exit(&mut self) -> (action: ThreadAction)
        ensures
            final(self)@ == old(self)@.at(Stage::Exited),
            action@ == ThreadActionView::Exit,
    {
        self.stage = Stage::Exited;
        ThreadAction::Exit
    }

    fn receive(&mut self) -> (action: ThreadAction)
        ensures
            final(self)@ == old(self)@.at(Stage::Receiving),
            action@ == ThreadActionView::Receive,
    {
        self.stage = Stage::Receiving;
        ThreadAction::Receive
    }

    fn tear_down(&mut self) -> (action: ThreadAction)
        ensures
            (final(self)@, action@) == old(self)@.tear_down(),
    {
        let progress = self.handler.kill();
        self.stage = Stage::Teardown;
        self.after_teardown(progress)
    }

    fn after_teardown(&mut self, progress: Progress) -> (action: ThreadAction)
        ensures
            (final(self)@, action@) == old(self)@.after_teardown(progress@),
    {
        match progress {
            Progress::Perform(effect) => ThreadAction::Engine(effect),
            _ => self.exit(),
        }
    }

    fn serve(&mut self, command: ThreadCommand) -> (action: ThreadAction)
        ensures
            (final(self)@, action@) == old(self)@.serve(command@),
    {
        let quit = command.is_quit();
        let progress = self.handler.send_command(&command.into_gui());
        self.stage = if quit {
            Stage::Quitting
        } else {
            Stage::Serving
        };
        self.after_serving(progress)
    }

    fn after_serving(&mut self, progress: Progress) -> (action: ThreadAction)
        ensures
            (final(self)@, action@) == old(self)@.after_serving(progress@),
    {
        match progress {
            Progress::Perform(effect) => ThreadAction::Engine(effect),
            _ => match self.stage {
                Stage::Quitting => self.tear_down(),
                _ => self.receive(),
            },
        }
    }

    fn hand_off(&mut self) -> (action: ThreadAction)
        ensures
            (final(self)@, action@) == old(self)@.hand_off(),
    {
        match self.handler.listen() {
            Ok(listener) => {
                self.stage = Stage::HandingOff;
                ThreadAction::Listen(listener)
            },
            Err(_) => self.tear_down(),
        }
    }

    fn new_game(&mut self) -> (action: ThreadAction)
        ensures
            (final(self)@, action@) == old(self)@.new_game(),
    {
        let progress = self.handler.send_command(&GuiCommand::UsiNewGame);
        self.stage = Stage::NewGame;
        self.after_new_game(progress)
    }

    fn after_new_game(&mut self, progress: Progress) -> (action: ThreadAction)
        ensures
            (final(self)@, action@) == old(self)@.after_new_game(progress@),
    {
        match progress {
            Progress::Perform(effect) => ThreadAction::Engine(effect),
            Progress::Done => self.hand_off(),
            _ => self.tear_down(),
        }
    }

    fn ask(&mut self) -> (action: ThreadAction)
        ensures
            (final(self)@, action@) == old(self)@.ask(),
    {
        let progress = self.handler.prepare();
        self.stage = Stage::Preparing;
        self.after_prepare(progress)
    }

    fn after_prepare(&mut self, progress: Progress) -> (action: ThreadAction)
        ensures
            (final(self)@, action@) == old(self)@.after_prepare(progress@),
    {
        match progress {
            Progress::Perform(effect) => ThreadAction::Engine(effect),
            Progress::Done => self.new_game(),
            _ => self.tear_down(),
        }
    }

    fn greet(&mut self) -> (action: ThreadAction)
        ensures
            (final(self)@, action@) == old(self)@.greet(),
    {
        let progress = self.handler.get_info();
        self.stage = Stage::Handshake;
        self.after_handshake(progress)
    }

    fn after_handshake(&mut self, progress: Progress) -> (action: ThreadAction)
        ensures
            (final(self)@, action@) == old(self)@.after_handshake(progress@),
    {
        match progress {
            Progress::Perform(effect) => ThreadAction::Engine(effect),
            Progress::Info(info) => {
                self.stage = Stage::Naming;
                ThreadAction::Report(info.name().to_string())
            },
            _ => {
                self.stage = Stage::Naming;
                ThreadAction::Report("Unknown".to_string())
            },
        }
    }

    fn apply_options(&mut self) -> (action: ThreadAction)
        ensures
            (final(self)@, action@) == old(self)@.apply_options(),
        decreases old(self).options.len() - old(self).next_option,
    {
        if self.next_option < self.options.len() {
            let command = GuiCommand::SetOption(
                self.options[self.next_option].0.clone(),
                clone_optional(&self.options[self.next_option].1),
            );
            let progress = self.handler.send_command_before_handshake(&command);
            self.next_option = self.next_option + 1;
            match progress {
                Progress::Perform(effect) => ThreadAction::Engine(effect),
                _ => self.apply_options(),
            }
        } else {
            self.greet()
        }
    }

    fn after_option(&mut self, progress: Progress) -> (action: ThreadAction)
        ensures
            (final(self)@, action@) == old(self)@.after_option(progress@),
    {
        match progress {
            Progress::Perform(effect) => ThreadAction::Engine(effect),
            _ => self.apply_options(),
        }
    }

    fn after_engine(&mut self, outcome: Outcome) -> (action: ThreadAction)
        ensures
            (final(self)@, action@) == old(self)@.after_engine(outcome@),
    {
        let progress = self.handler.resume(outcome);
        match self.stage {
            Stage::Options => self.after_option(progress),
            Stage::Handshake => self.after_handshake(progress),
            Stage::Preparing => self.after_prepare(progress),
            Stage::NewGame => self.after_new_game(progress),
            Stage::Serving => self.after_serving(progress),
            Stage::Quitting => self.after_serving(progress),
            _ => self.after_teardown(progress),
        }
    }

    fn on_engine(&self) -> (busy: bool)
        ensures
            busy == self@.on_engine(),
    {
        match self.stage {
            Stage::Options => true,
            Stage::Handshake => true,
            Stage::Preparing => true,
            Stage::NewGame => true,
            Stage::Serving => true,
            Stage::Quitting => true,
            Stage::Teardown => true,
            _ => false,
        }
    }
}

impl ThreadedEngine {
    /// Takes the controlling thread of an engine one step further: given
    /// what happened, says what to do next.
    pub fn engine_thread(thread: &mut EngineThread, event: ThreadEvent) -> (action: ThreadAction)
        ensures
            (final(thread)@, action@) == old(thread)@.step(event@),
    {
        match (thread.stage, event) {
            (Stage::Created, ThreadEvent::Ready) => {
                thread.stage = Stage::Launching;
                ThreadAction::Launch {
                    path: thread.path.clone(),
                    working_dir: thread.working_dir.clone(),
                }
            },
            (Stage::Launching, ThreadEvent::Launched(launched)) => {
                match UsiEngineHandler::spawn(launched) {
                    Ok(handler) => {
                        thread.handler = handler;
                        thread.stage = Stage::Options;
                        thread.next_option = 0;
                        thread.apply_options()
                    },
                    Err(_) => {
                        thread.stage = Stage::Failing;
                        ThreadAction::Report("Engine Failed".to_string())
                    },
                }
            },
            (Stage::Failing, ThreadEvent::Ready) => thread.exit(),
            (Stage::Naming, ThreadEvent::Ready) => thread.ask(),
            (Stage::HandingOff, ThreadEvent::Ready) => thread.receive(),
            (Stage::Receiving, ThreadEvent::Command(command)) => thread.serve(command),
            (Stage::Receiving, ThreadEvent::Disconnected) => thread.tear_down(),
            (_, ThreadEvent::Engine(outcome)) => {
                if thread.on_engine() {
                    thread.after_engine(outcome)
                } else {
                    thread.exit()
                }
            },
            _ => thread.exit(),
        }
    }
}

} // verus!
