//! The session handler: which operation is legal in which phase, what each
//! operation writes, and when its read loop ends.
//!
//! The handler does no I/O. An operation answers with the next thing to do
//! on the engine's streams (a [`Progress`]); the caller does it and reports
//! how it went (an [`Outcome`]) to [`UsiEngineHandler::resume`], until the
//! operation is finished.

use crate::decimal::{decimal, decimal_string};
use crate::error::{unit_view, Error, ErrorView};
use crate::process::listener::Listener;
use crate::process::options::EngineOptions;
use crate::protocol::{
    clone_optional, decoded_view, Decoded, DecodedView, EngineCommand, EngineCommandView,
    GuiCommand, GuiCommandView, IdParams, IdParamsView, OptionKind, OptionKindView,
};
use vstd::prelude::*;

verus! {

/// The default of an option as text: `true` or `false` for a check box, the
/// decimal notation for a number, the text itself for the other kinds, and
/// the empty text where no default was declared.
pub open spec fn rendered_default(kind: OptionKindView) -> Seq<char> {
    match kind {
        OptionKindView::Check { default: Some(flag) } => if flag {
            "true"@
        } else {
            "false"@
        },
        OptionKindView::Spin { default: Some(number), .. } => decimal(number as int),
        OptionKindView::Combo { default: Some(text), .. } => text,
        OptionKindView::Button { default: Some(text) } => text,
        OptionKindView::String { default: Some(text) } => text,
        OptionKindView::Filename { default: Some(text) } => text,
        _ => Seq::empty(),
    }
}

impl OptionKind {
    /// Renders the declared default as text.
    pub fn default_text(&self) -> (text: String)
        ensures
            text@ == rendered_default(self@),
    {
        let text = match self {
            OptionKind::Check { default } => match default {
                Some(flag) => Some(
                    if *flag {
                        "true".to_string()
                    } else {
                        "false".to_string()
                    },
                ),
                None => None,
            },
            OptionKind::Spin { default, .. } => match default {
                Some(number) => Some(decimal_string(*number)),
                None => None,
            },
            OptionKind::Combo { default, .. } => clone_optional(default),
            OptionKind::Button { default } => clone_optional(default),
            OptionKind::String { default } => clone_optional(default),
            OptionKind::Filename { default } => clone_optional(default),
        };
        match text {
            Some(text) => text,
            None => String::new(),
        }
    }
}

/// Model of an [`EngineInfo`].
pub struct EngineInfoView {
    pub name: Seq<char>,
    pub options: Map<Seq<char>, Seq<char>>,
}

impl EngineInfoView {
    /// No name, no options.
    pub open spec fn empty() -> EngineInfoView {
        EngineInfoView { name: Seq::empty(), options: Map::empty() }
    }

    /// The info after one more command of the handshake: a name declaration
    /// replaces the name, an option declaration binds the option's name to
    /// its rendered default, any other command changes nothing.
    pub open spec fn absorb(self, command: EngineCommandView) -> EngineInfoView {
        match command {
            EngineCommandView::Id(IdParamsView::Name(name)) => EngineInfoView { name, ..self },
            EngineCommandView::Option(option) => EngineInfoView {
                options: self.options.insert(option.name, rendered_default(option.value)),
                ..self
            },
            _ => self,
        }
    }
}

/// What an engine declared during the handshake: its name and its options.
#[derive(Debug)]
pub struct EngineInfo {
    name: String,
    options: EngineOptions,
}

impl View for EngineInfo {
    type V = EngineInfoView;

    closed spec fn view(&self) -> EngineInfoView {
        EngineInfoView { name: self.name@, options: self.options@ }
    }
}

impl Clone for EngineInfo {
    fn clone(&self) -> (copy: EngineInfo)
        ensures
            copy@ == self@,
    {
        EngineInfo { name: self.name.clone(), options: self.options.clone() }
    }
}

impl Default for EngineInfo {
    fn default() -> (info: EngineInfo)
        ensures
            info@ == EngineInfoView::empty(),
    {
        EngineInfo { name: String::new(), options: EngineOptions::new() }
    }
}

impl EngineInfo {
    /// The engine's name.
    pub fn name(&self) -> (name: &str)
        ensures
            name@ == self@.name,
    {
        self.name.as_str()
    }

    /// The engine's options.
    pub fn options(&self) -> (options: &EngineOptions)
        ensures
            options@ == self@.options,
    {
        &self.options
    }

    /// Takes note of one command of the handshake.
    pub(crate) fn absorb(&mut self, command: &EngineCommand)
        ensures
            final(self)@ == old(self)@.absorb(command@),
    {
        match command {
            EngineCommand::Id(IdParams::Name(name)) => {
                self.name = name.clone();
            },
            EngineCommand::Option(option) => {
                self.options.insert(option.name.clone(), option.value.default_text());
            },
            _ => {},
        }
    }
}

/// What a handler is waiting for.
#[derive(Clone, Copy, Debug, PartialEq, Eq)]
pub enum Pending {
    /// Nothing: no operation is under way.
    Idle,
    /// The write of a single command.
    Sending,
    /// The write of the command that opens the handshake.
    Greeting,
    /// The next line of the handshake.
    Handshaking,
    /// The write of the readiness query.
    Asking,
    /// The next line while waiting for the readiness acknowledgement.
    Waiting,
    /// The write of the quit command.
    Quitting,
    /// The forcible termination of the process.
    Terminating,
}

/// Something to do on the engine process.
#[derive(Debug, PartialEq, Eq)]
pub enum Effect {
    /// Encode this command and write it to the engine's input.
    Write(GuiCommand),
    /// Read and decode the next line of the engine's output.
    Read,
    /// Terminate the process forcibly.
    Terminate,
}

/// Model of an [`Effect`].
pub enum EffectView {
    Write(GuiCommandView),
    Read,
    Terminate,
}

impl View for Effect {
    type V = EffectView;

    open spec fn view(&self) -> EffectView {
        match self {
            Effect::Write(command) => EffectView::Write(command@),
            Effect::Read => EffectView::Read,
            Effect::Terminate => EffectView::Terminate,
        }
    }
}

/// How an [`Effect`] went.
#[derive(Debug)]
pub enum Outcome {
    Written(Result<(), Error>),
    Decoded(Decoded),
    Terminated(Result<(), Error>),
}

/// Model of an [`Outcome`].
pub enum OutcomeView {
    Written(Result<(), ErrorView>),
    Decoded(DecodedView),
    Terminated(Result<(), ErrorView>),
}

impl View for Outcome {
    type V = OutcomeView;

    open spec fn view(&self) -> OutcomeView {
        match self {
            Outcome::Written(result) => OutcomeView::Written(unit_view(*result)),
            Outcome::Decoded(decoded) => OutcomeView::Decoded(decoded_view(*decoded)),
            Outcome::Terminated(result) => OutcomeView::Terminated(unit_view(*result)),
        }
    }
}

/// Where an operation stands: either there is something to do on the
/// process, or the operation has ended.
#[derive(Debug)]
pub enum Progress {
    /// Do this, then call [`UsiEngineHandler::resume`] with how it went.
    Perform(Effect),
    /// The operation succeeded.
    Done,
    /// The handshake succeeded, with what the engine declared.
    Info(EngineInfo),
    /// The operation failed.
    Failed(Error),
}

/// Model of a [`Progress`].
pub enum ProgressView {
    Perform(EffectView),
    Done,
    Info(EngineInfoView),
    Failed(ErrorView),
}

impl View for Progress {
    type V = ProgressView;

    open spec fn view(&self) -> ProgressView {
        match self {
            Progress::Perform(effect) => ProgressView::Perform(effect@),
            Progress::Done => ProgressView::Done,
            Progress::Info(info) => ProgressView::Info(info@),
            Progress::Failed(error) => ProgressView::Failed(error@),
        }
    }
}

impl ProgressView {
    /// The end of an operation whose last action went as `result` says.
    pub open spec fn reply(result: Result<(), ErrorView>) -> ProgressView {
        match result {
            Ok(()) => ProgressView::Done,
            Err(error) => ProgressView::Failed(error),
        }
    }
}

/// An operation that a caller may ask of a handler.
pub enum Request {
    SendBeforeHandshake(GuiCommandView),
    GetInfo,
    Prepare,
    Send(GuiCommandView),
    Kill,
}

/// Model of a [`UsiEngineHandler`].
pub struct HandlerView {
    /// The engine's output stream is still the handler's: no listener has
    /// taken it.
    pub listener_stream: bool,
    /// The handshake has been started at least once.
    pub handshake_started: bool,
    /// What the operation under way is waiting for.
    pub pending: Pending,
    /// What the handshake under way has collected; empty outside a handshake.
    pub info: EngineInfoView,
}

impl HandlerView {
    /// The handler of a process that was just launched.
    pub open spec fn fresh() -> HandlerView {
        HandlerView {
            listener_stream: true,
            handshake_started: false,
            pending: Pending::Idle,
            info: EngineInfoView::empty(),
        }
    }

    /// This handler, waiting for `pending`.
    pub open spec fn awaiting(self, pending: Pending) -> HandlerView {
        HandlerView { pending, ..self }
    }

    /// This handler with no operation under way.
    pub open spec fn settled(self) -> HandlerView {
        HandlerView { pending: Pending::Idle, info: EngineInfoView::empty(), ..self }
    }

    /// The handler that a request leaves, and the first step of the
    /// operation.
    ///
    /// A request made while another operation is under way is refused.
    /// Sending before the handshake is refused once a handshake has been
    /// started. The handshake and the readiness query are refused once the
    /// output stream has been handed to a listener. Every operation that is
    /// not refused starts by writing one command. A handshake starts with
    /// nothing collected, and counts as started whether or not it succeeds.
    pub open spec fn begin(self, request: Request) -> (HandlerView, ProgressView) {
        let refused = (self, ProgressView::Failed(ErrorView::IllegalOperation));
        if self.pending != Pending::Idle {
            refused
        } else {
            match request {
                Request::SendBeforeHandshake(command) => if self.handshake_started {
                    refused
                } else {
                    (
                        self.awaiting(Pending::Sending),
                        ProgressView::Perform(EffectView::Write(command)),
                    )
                },
                Request::GetInfo => if !self.listener_stream {
                    refused
                } else {
                    (
                        HandlerView {
                            handshake_started: true,
                            pending: Pending::Greeting,
                            info: EngineInfoView::empty(),
                            ..self
                        },
                        ProgressView::Perform(EffectView::Write(GuiCommandView::Usi)),
                    )
                },
                Request::Prepare => if !self.listener_stream {
                    refused
                } else {
                    (
                        self.awaiting(Pending::Asking),
                        ProgressView::Perform(EffectView::Write(GuiCommandView::IsReady)),
                    )
                },
                Request::Send(command) => (
                    self.awaiting(Pending::Sending),
                    ProgressView::Perform(EffectView::Write(command)),
                ),
                Request::Kill => (
                    self.awaiting(Pending::Quitting),
                    ProgressView::Perform(EffectView::Write(GuiCommandView::Quit)),
                ),
            }
        }
    }

    /// The step after a write that opens a read loop: a failed write ends
    /// the operation with that failure, a successful one is followed by a
    /// read.
    pub open spec fn after_opening(
        self,
        written: Result<(), ErrorView>,
        reading: Pending,
    ) -> (HandlerView, ProgressView) {
        match written {
            Ok(()) => (self.awaiting(reading), ProgressView::Perform(EffectView::Read)),
            Err(error) => (self.settled(), ProgressView::Failed(error)),
        }
    }

    /// The step after one line of the handshake: the completion command
    /// ends the handshake with what was collected; any other decoded line
    /// is taken note of and a malformed line is skipped, both followed by
    /// another read; any other failure ends the handshake with that failure.
    pub open spec fn after_handshake_line(self, decoded: DecodedView) -> (
        HandlerView,
        ProgressView,
    ) {
        match decoded {
            Ok(output) => match output.response {
                Some(EngineCommandView::UsiOk) => (self.settled(), ProgressView::Info(self.info)),
                Some(command) => (
                    HandlerView { info: self.info.absorb(command), ..self },
                    ProgressView::Perform(EffectView::Read),
                ),
                None => (self, ProgressView::Perform(EffectView::Read)),
            },
            Err(ErrorView::IllegalSyntax) => (self, ProgressView::Perform(EffectView::Read)),
            Err(error) => (self.settled(), ProgressView::Failed(error)),
        }
    }

    /// The step after one line while waiting for readiness: the
    /// acknowledgement ends the wait; any other decoded line and a
    /// malformed line are discarded, followed by another read; any other
    /// failure ends the wait with that failure.
    pub open spec fn after_waiting_line(self, decoded: DecodedView) -> (
        HandlerView,
        ProgressView,
    ) {
        match decoded {
            Ok(output) => match output.response {
                Some(EngineCommandView::ReadyOk) => (self.settled(), ProgressView::Done),
                _ => (self, ProgressView::Perform(EffectView::Read)),
            },
            Err(ErrorView::IllegalSyntax) => (self, ProgressView::Perform(EffectView::Read)),
            Err(error) => (self.settled(), ProgressView::Failed(error)),
        }
    }

    /// The handler after it is told how its last step went, and the next
    /// step.
    ///
    /// An outcome that does not answer what the handler is waiting for
    /// abandons the operation under way as an illegal operation.
    pub open spec fn resume(self, outcome: OutcomeView) -> (HandlerView, ProgressView) {
        match (self.pending, outcome) {
            (Pending::Sending, OutcomeView::Written(written)) => (
                self.settled(),
                ProgressView::reply(written),
            ),
            (Pending::Greeting, OutcomeView::Written(written)) => self.after_opening(
                written,
                Pending::Handshaking,
            ),
            (Pending::Handshaking, OutcomeView::Decoded(decoded)) => self.after_handshake_line(
                decoded,
            ),
            (Pending::Asking, OutcomeView::Written(written)) => self.after_opening(
                written,
                Pending::Waiting,
            ),
            (Pending::Waiting, OutcomeView::Decoded(decoded)) => self.after_waiting_line(decoded),
            (Pending::Quitting, OutcomeView::Written(written)) => match written {
                Ok(()) => (
                    self.awaiting(Pending::Terminating),
                    ProgressView::Perform(EffectView::Terminate),
                ),
                Err(error) => (self.settled(), ProgressView::Failed(error)),
            },
            (Pending::Terminating, OutcomeView::Terminated(terminated)) => (
                self.settled(),
                ProgressView::reply(terminated),
            ),
            _ => (self.settled(), ProgressView::Failed(ErrorView::IllegalOperation)),
        }
    }

    /// The handler after a request to hand the output stream to a
    /// listener, and whether the request is granted: it is granted once,
    /// while no operation is under way.
    pub open spec fn listen(self) -> (HandlerView, bool) {
        if self.pending == Pending::Idle && self.listener_stream {
            (HandlerView { listener_stream: false, ..self }, true)
        } else {
            (self, false)
        }
    }
}

/// The session with one engine process.
///
/// The handler knows whether the handshake has been started, whether the
/// engine's output stream is still its own, and what the operation under
/// way is waiting for.
#[derive(Debug)]
pub struct UsiEngineHandler {
    listener_stream: bool,
    handshake_started: bool,
    pending: Pending,
    info: EngineInfo,
}

impl View for UsiEngineHandler {
    type V = HandlerView;

    closed spec fn view(&self) -> HandlerView {
        HandlerView {
            listener_stream: self.listener_stream,
            handshake_started: self.handshake_started,
            pending: self.pending,
            info: self.info@,
        }
    }
}

impl UsiEngineHandler {
    /// The handler of an engine process, given how the launch of the
    /// process went: a failed launch yields that failure, a successful one
    /// a handler that has not started the handshake and owns the output
    /// stream.
    pub fn spawn(launched: Result<(), Error>) -> (handler: Result<UsiEngineHandler, Error>)
        ensures
            match launched {
                Ok(()) => handler matches Ok(handler) && handler@ == HandlerView::fresh(),
                Err(error) => handler == Err::<UsiEngineHandler, Error>(error),
            },
    {
        match launched {
            Ok(()) => Ok(UsiEngineHandler::fresh()),
            Err(error) => Err(error),
        }
    }

    pub(crate) fn fresh() -> (handler: UsiEngineHandler)
        ensures
            handler@ == HandlerView::fresh(),
    {
        UsiEngineHandler {
            listener_stream: true,
            handshake_started: false,
            pending: Pending::Idle,
            info: EngineInfo::default(),
        }
    }

    fn refuse(&self) -> (progress: Progress)
        ensures
            progress@ == ProgressView::Failed(ErrorView::IllegalOperation),
    {
        Progress::Failed(Error::IllegalOperation)
    }

    fn is_idle(&self) -> (idle: bool)
        ensures
            idle == (self@.pending == Pending::Idle),
    {
        match self.pending {
            Pending::Idle => true,
            _ => false,
        }
    }

    fn settle(&mut self)
        ensures
            final(self)@ == old(self)@.settled(),
    {
        self.pending = Pending::Idle;
        self.info = EngineInfo::default();
    }

    /// Starts sending a command that must reach the engine before the
    /// handshake. Refused with [`Error::IllegalOperation`] once the
    /// handshake has been started; otherwise the command is to be written,
    /// and the result of the write ends the operation.
    pub fn send_command_before_handshake(&mut self, command: &GuiCommand) -> (progress: Progress)
        ensures
            (final(self)@, progress@) == old(self)@.begin(
                Request::SendBeforeHandshake(command@),
            ),
            old(self)@.handshake_started ==> progress@ == ProgressView::Failed(
                ErrorView::IllegalOperation,
            ),
    {
        if !self.is_idle() || self.handshake_started {
            self.refuse()
        } else {
            self.pending = Pending::Sending;
            Progress::Perform(Effect::Write(command.clone()))
        }
    }

    /// Starts the handshake. Refused with [`Error::IllegalOperation`] once
    /// the output stream has been handed to a listener; otherwise the
    /// handshake counts as started from now on, and the command that opens
    /// it is to be written.
    pub fn get_info(&mut self) -> (progress: Progress)
        ensures
            (final(self)@, progress@) == old(self)@.begin(Request::GetInfo),
            !old(self)@.listener_stream ==> progress@ == ProgressView::Failed(
                ErrorView::IllegalOperation,
            ) && final(self)@ == old(self)@,
    {
        if !self.is_idle() || !self.listener_stream {
            self.refuse()
        } else {
            self.handshake_started = true;
            self.pending = Pending::Greeting;
            self.info = EngineInfo::default();
            Progress::Perform(Effect::Write(GuiCommand::Usi))
        }
    }

    /// Starts the readiness query. Refused with
    /// [`Error::IllegalOperation`] once the output stream has been handed
    /// to a listener; otherwise the query is to be written.
    pub fn prepare(&mut self) -> (progress: Progress)
        ensures
            (final(self)@, progress@) == old(self)@.begin(Request::Prepare),
            !old(self)@.listener_stream ==> progress@ == ProgressView::Failed(
                ErrorView::IllegalOperation,
            ) && final(self)@ == old(self)@,
    {
        if !self.is_idle() || !self.listener_stream {
            self.refuse()
        } else {
            self.pending = Pending::Asking;
            Progress::Perform(Effect::Write(GuiCommand::IsReady))
        }
    }

    /// Starts sending one command. The command is to be written, and the
    /// result of the write ends the operation; no answer is awaited.
    pub fn send_command(&mut self, command: &GuiCommand) -> (progress: Progress)
        ensures
            (final(self)@, progress@) == old(self)@.begin(Request::Send(command@)),
    {
        if !self.is_idle() {
            self.refuse()
        } else {
            self.pending = Pending::Sending;
            Progress::Perform(Effect::Write(command.clone()))
        }
    }

    /// Starts ending the engine: the quit command is to be written, then
    /// the process terminated. Where the quit command cannot be written
    /// the operation ends with that failure, and the process is left
    /// alone.
    pub fn kill(&mut self) -> (progress: Progress)
        ensures
            (final(self)@, progress@) == old(self)@.begin(Request::Kill),
    {
        if !self.is_idle() {
            self.refuse()
        } else {
            self.pending = Pending::Quitting;
            Progress::Perform(Effect::Write(GuiCommand::Quit))
        }
    }

    /// Hands the engine's output stream to a listener. Granted once, while
    /// no operation is under way; every later request fails with
    /// [`Error::IllegalOperation`]. The listener returned stands for the
    /// stream: whoever holds it runs the listening loop.
    pub fn listen(&mut self) -> (listener: Result<Listener, Error>)
        ensures
            final(self)@ == old(self)@.listen().0,
            match listener {
                Ok(listener) => old(self)@.listen().1 && listener@
                    == crate::process::listener::ListenerState::Created,
                Err(error) => !old(self)@.listen().1 && error@ == ErrorView::IllegalOperation,
            },
            !old(self)@.listener_stream ==> listener is Err,
    {
        if self.is_idle() && self.listener_stream {
            self.listener_stream = false;
            Ok(Listener::new())
        } else {
            Err(Error::IllegalOperation)
        }
    }

    fn after_opening(&mut self, written: Result<(), Error>, reading: Pending) -> (progress:
        Progress)
        ensures
            (final(self)@, progress@) == old(self)@.after_opening(unit_view(written), reading),
    {
        match written {
            Ok(()) => {
                self.pending = reading;
                Progress::Perform(Effect::Read)
            },
            Err(error) => {
                self.settle();
                Progress::Failed(error)
            },
        }
    }

    fn after_handshake_line(&mut self, decoded: Decoded) -> (progress: Progress)
        ensures
            (final(self)@, progress@) == old(self)@.after_handshake_line(decoded_view(decoded)),
    {
        match decoded {
            Ok(output) => match &output.response {
                Some(EngineCommand::UsiOk) => {
                    let mut info = EngineInfo::default();
                    core::mem::swap(&mut self.info, &mut info);
                    self.pending = Pending::Idle;
                    Progress::Info(info)
                },
                Some(command) => {
                    self.info.absorb(command);
                    Progress::Perform(Effect::Read)
                },
                None => Progress::Perform(Effect::Read),
            },
            Err(error) => {
                if error.is_syntax() {
                    Progress::Perform(Effect::Read)
                } else {
                    self.settle();
                    Progress::Failed(error)
                }
            },
        }
    }

    fn after_waiting_line(&mut self, decoded: Decoded) -> (progress: Progress)
        ensures
            (final(self)@, progress@) == old(self)@.after_waiting_line(decoded_view(decoded)),
    {
        match decoded {
            Ok(output) => match &output.response {
                Some(EngineCommand::ReadyOk) => {
                    self.settle();
                    Progress::Done
                },
                _ => Progress::Perform(Effect::Read),
            },
            Err(error) => {
                if error.is_syntax() {
                    Progress::Perform(Effect::Read)
                } else {
                    self.settle();
                    Progress::Failed(error)
                }
            },
        }
    }

    fn reply(&mut self, result: Result<(), Error>) -> (progress: Progress)
        ensures
            final(self)@ == old(self)@.settled(),
            progress@ == ProgressView::reply(unit_view(result)),
    {
        self.settle();
        match result {
            Ok(()) => Progress::Done,
            Err(error) => Progress::Failed(error),
        }
    }

    /// Continues the operation under way, given how its last step went.
    pub fn resume(&mut self, outcome: Outcome) -> (progress: Progress)
        ensures
            (final(self)@, progress@) == old(self)@.resume(outcome@),
    {
        match (self.pending, outcome) {
            (Pending::Sending, Outcome::Written(written)) => self.reply(written),
            (Pending::Greeting, Outcome::Written(written)) => self.after_opening(
                written,
                Pending::Handshaking,
            ),
            (Pending::Handshaking, Outcome::Decoded(decoded)) => self.after_handshake_line(
                decoded,
            ),
            (Pending::Asking, Outcome::Written(written)) => self.after_opening(
                written,
                Pending::Waiting,
            ),
            (Pending::Waiting, Outcome::Decoded(decoded)) => self.after_waiting_line(decoded),
            (Pending::Quitting, Outcome::Written(written)) => match written {
                Ok(()) => {
                    self.pending = Pending::Terminating;
                    Progress::Perform(Effect::Terminate)
                },
                Err(error) => {
                    self.settle();
                    Progress::Failed(error)
                },
            },
            (Pending::Terminating, Outcome::Terminated(terminated)) => self.reply(terminated),
            _ => {
                self.settle();
                Progress::Failed(Error::IllegalOperation)
            },
        }
    }
}

} // verus!
