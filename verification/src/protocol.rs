//! Typed protocol commands.
//!
//! The textual form of a command is the business of a codec outside this
//! crate; the session logic only ever sees the typed values defined here.

use std::time::Duration;
use vstd::prelude::*;

verus! {

/// How a finished game ended, from the engine's side.
#[derive(Clone, Copy, Debug, PartialEq, Eq)]
pub enum GameOverKind {
    Win,
    Lose,
    Draw,
}

/// Limit of a mate search.
#[derive(Clone, Copy, Debug, PartialEq, Eq)]
pub enum MateParam {
    Timeout(Duration),
    Infinite,
}

/// Search parameters of a `go` command. The session logic passes them
/// through unread.
#[derive(Clone, Copy, Debug, PartialEq, Eq)]
pub struct ThinkParams {
    pub ponder: bool,
    pub btime: Option<Duration>,
    pub wtime: Option<Duration>,
    pub byoyomi: Option<Duration>,
    pub binc: Option<Duration>,
    pub winc: Option<Duration>,
    pub infinite: bool,
    pub mate: Option<MateParam>,
}

impl ThinkParams {
    /// Parameters with every limit unset.
    pub open spec fn unset() -> ThinkParams {
        ThinkParams {
            ponder: false,
            btime: None,
            wtime: None,
            byoyomi: None,
            binc: None,
            winc: None,
            infinite: false,
            mate: None,
        }
    }

    pub fn new() -> (params: ThinkParams)
        ensures
            params == ThinkParams::unset(),
    {
        ThinkParams {
            ponder: false,
            btime: None,
            wtime: None,
            byoyomi: None,
            binc: None,
            winc: None,
            infinite: false,
            mate: None,
        }
    }

    /// Sets the per-move time allowance.
    pub fn byoyomi(self, time: Duration) -> (params: ThinkParams)
        ensures
            params == (ThinkParams { byoyomi: Some(time), ..self }),
    {
        ThinkParams { byoyomi: Some(time), ..self }
    }

    /// Asks for a search without a time limit.
    pub fn infinite(self) -> (params: ThinkParams)
        ensures
            params == (ThinkParams { infinite: true, ..self }),
    {
        ThinkParams { infinite: true, ..self }
    }

    /// Asks for a mate search.
    pub fn mate(self, limit: MateParam) -> (params: ThinkParams)
        ensures
            params == (ThinkParams { mate: Some(limit), ..self }),
    {
        ThinkParams { mate: Some(limit), ..self }
    }
}

/// A command sent to the engine.
#[derive(Debug, PartialEq, Eq)]
pub enum GuiCommand {
    GameOver(GameOverKind),
    Go(ThinkParams),
    IsReady,
    Ponderhit,
    Position(String),
    SetOption(String, Option<String>),
    Stop,
    Usi,
    UsiNewGame,
    Quit,
}

/// Mathematical model of a [`GuiCommand`].
pub enum GuiCommandView {
    GameOver(GameOverKind),
    Go(ThinkParams),
    IsReady,
    Ponderhit,
    Position(Seq<char>),
    SetOption(Seq<char>, Option<Seq<char>>),
    Stop,
    Usi,
    UsiNewGame,
    Quit,
}

impl View for GuiCommand {
    type V = GuiCommandView;

    open spec fn view(&self) -> GuiCommandView {
        match self {
            GuiCommand::GameOver(kind) => GuiCommandView::GameOver(*kind),
            GuiCommand::Go(params) => GuiCommandView::Go(*params),
            GuiCommand::IsReady => GuiCommandView::IsReady,
            GuiCommand::Ponderhit => GuiCommandView::Ponderhit,
            GuiCommand::Position(sfen) => GuiCommandView::Position(sfen@),
            GuiCommand::SetOption(name, value) => GuiCommandView::SetOption(
                name@,
                value.deep_view(),
            ),
            GuiCommand::Stop => GuiCommandView::Stop,
            GuiCommand::Usi => GuiCommandView::Usi,
            GuiCommand::UsiNewGame => GuiCommandView::UsiNewGame,
            GuiCommand::Quit => GuiCommandView::Quit,
        }
    }
}

/// Copies an optional string.
pub(crate) fn clone_optional(text: &Option<String>) -> (copy: Option<String>)
    ensures
        copy.deep_view() == text.deep_view(),
{
    match text {
        Some(text) => Some(text.clone()),
        None => None,
    }
}

impl Clone for GuiCommand {
    fn clone(&self) -> (copy: GuiCommand)
        ensures
            copy@ == self@,
    {
        match self {
            GuiCommand::GameOver(kind) => GuiCommand::GameOver(*kind),
            GuiCommand::Go(params) => GuiCommand::Go(*params),
            GuiCommand::IsReady => GuiCommand::IsReady,
            GuiCommand::Ponderhit => GuiCommand::Ponderhit,
            GuiCommand::Position(sfen) => GuiCommand::Position(sfen.clone()),
            GuiCommand::SetOption(name, value) => GuiCommand::SetOption(
                name.clone(),
                clone_optional(value),
            ),
            GuiCommand::Stop => GuiCommand::Stop,
            GuiCommand::Usi => GuiCommand::Usi,
            GuiCommand::UsiNewGame => GuiCommand::UsiNewGame,
            GuiCommand::Quit => GuiCommand::Quit,
        }
    }
}

/// What an engine says about itself.
#[derive(Clone, Debug, PartialEq, Eq)]
pub enum IdParams {
    Name(String),
    Author(String),
}

/// Model of an [`IdParams`].
pub enum IdParamsView {
    Name(Seq<char>),
    Author(Seq<char>),
}

impl View for IdParams {
    type V = IdParamsView;

    open spec fn view(&self) -> IdParamsView {
        match self {
            IdParams::Name(name) => IdParamsView::Name(name@),
            IdParams::Author(author) => IdParamsView::Author(author@),
        }
    }
}

/// Result of an ordinary search.
#[derive(Clone, Debug, PartialEq, Eq)]
pub enum BestMoveParams {
    /// The move to play and, optionally, the move the engine wants to ponder on.
    MakeMove(String, Option<String>),
    Resign,
    Win,
}

/// Model of a [`BestMoveParams`].
pub enum BestMoveParamsView {
    MakeMove(Seq<char>, Option<Seq<char>>),
    Resign,
    Win,
}

impl View for BestMoveParams {
    type V = BestMoveParamsView;

    open spec fn view(&self) -> BestMoveParamsView {
        match self {
            BestMoveParams::MakeMove(best, ponder) => BestMoveParamsView::MakeMove(
                best@,
                ponder.deep_view(),
            ),
            BestMoveParams::Resign => BestMoveParamsView::Resign,
            BestMoveParams::Win => BestMoveParamsView::Win,
        }
    }
}

/// Result of a mate search.
#[derive(Clone, Debug, PartialEq, Eq)]
pub enum CheckmateParams {
    /// The mating line, first move first.
    Mate(Vec<String>),
    NoMate,
    NotImplemented,
    Timeout,
}

/// Model of a [`CheckmateParams`].
pub enum CheckmateParamsView {
    Mate(Seq<Seq<char>>),
    NoMate,
    NotImplemented,
    Timeout,
}

impl View for CheckmateParams {
    type V = CheckmateParamsView;

    open spec fn view(&self) -> CheckmateParamsView {
        match self {
            CheckmateParams::Mate(line) => CheckmateParamsView::Mate(line.deep_view()),
            CheckmateParams::NoMate => CheckmateParamsView::NoMate,
            CheckmateParams::NotImplemented => CheckmateParamsView::NotImplemented,
            CheckmateParams::Timeout => CheckmateParamsView::Timeout,
        }
    }
}

/// Kind and default of a configurable engine option.
#[allow(inconsistent_fields)]
#[derive(Clone, Debug, PartialEq, Eq)]
pub enum OptionKind {
    Check { default: Option<bool> },
    Spin { default: Option<i32>, min: Option<i32>, max: Option<i32> },
    Combo { default: Option<String>, vars: Vec<String> },
    Button { default: Option<String> },
    String { default: Option<String> },
    Filename { default: Option<String> },
}

/// Model of an [`OptionKind`].
#[allow(inconsistent_fields)]
pub enum OptionKindView {
    Check { default: Option<bool> },
    Spin { default: Option<i32>, min: Option<i32>, max: Option<i32> },
    Combo { default: Option<Seq<char>>, vars: Seq<Seq<char>> },
    Button { default: Option<Seq<char>> },
    String { default: Option<Seq<char>> },
    Filename { default: Option<Seq<char>> },
}

impl View for OptionKind {
    type V = OptionKindView;

    open spec fn view(&self) -> OptionKindView {
        match self {
            OptionKind::Check { default } => OptionKindView::Check { default: *default },
            OptionKind::Spin { default, min, max } => OptionKindView::Spin {
                default: *default,
                min: *min,
                max: *max,
            },
            OptionKind::Combo { default, vars } => OptionKindView::Combo {
                default: default.deep_view(),
                vars: vars.deep_view(),
            },
            OptionKind::Button { default } => OptionKindView::Button {
                default: default.deep_view(),
            },
            OptionKind::String { default } => OptionKindView::String {
                default: default.deep_view(),
            },
            OptionKind::Filename { default } => OptionKindView::Filename {
                default: default.deep_view(),
            },
        }
    }
}

/// Declaration of one configurable option.
#[derive(Clone, Debug, PartialEq, Eq)]
pub struct OptionParams {
    pub name: String,
    pub value: OptionKind,
}

/// Model of an [`OptionParams`].
pub struct OptionParamsView {
    pub name: Seq<char>,
    pub value: OptionKindView,
}

impl View for OptionParams {
    type V = OptionParamsView;

    open spec fn view(&self) -> OptionParamsView {
        OptionParamsView { name: self.name@, value: self.value@ }
    }
}

/// A command received from the engine.
#[derive(Clone, Debug, PartialEq, Eq)]
pub enum EngineCommand {
    Id(IdParams),
    BestMove(BestMoveParams),
    Checkmate(CheckmateParams),
    /// Search information, carried undecoded.
    Info(String),
    Option(OptionParams),
    ReadyOk,
    UsiOk,
    Unknown,
}

/// Model of an [`EngineCommand`].
pub enum EngineCommandView {
    Id(IdParamsView),
    BestMove(BestMoveParamsView),
    Checkmate(CheckmateParamsView),
    Info(Seq<char>),
    Option(OptionParamsView),
    ReadyOk,
    UsiOk,
    Unknown,
}

impl View for EngineCommand {
    type V = EngineCommandView;

    open spec fn view(&self) -> EngineCommandView {
        match self {
            EngineCommand::Id(id) => EngineCommandView::Id(id@),
            EngineCommand::BestMove(best) => EngineCommandView::BestMove(best@),
            EngineCommand::Checkmate(mate) => EngineCommandView::Checkmate(mate@),
            EngineCommand::Info(text) => EngineCommandView::Info(text@),
            EngineCommand::Option(option) => EngineCommandView::Option(option@),
            EngineCommand::ReadyOk => EngineCommandView::ReadyOk,
            EngineCommand::UsiOk => EngineCommandView::UsiOk,
            EngineCommand::Unknown => EngineCommandView::Unknown,
        }
    }
}

/// One decoded line of engine output: the command it holds, if any, and the
/// line as it was read.
#[derive(Clone, Debug, PartialEq, Eq)]
pub struct EngineOutput {
    pub response: Option<EngineCommand>,
    pub raw_str: String,
}

/// Model of an [`EngineOutput`].
pub struct EngineOutputView {
    pub response: Option<EngineCommandView>,
    pub raw_str: Seq<char>,
}

impl View for EngineOutput {
    type V = EngineOutputView;

    open spec fn view(&self) -> EngineOutputView {
        EngineOutputView {
            response: match self.response {
                Some(command) => Some(command@),
                None => None,
            },
            raw_str: self.raw_str@,
        }
    }
}

impl EngineOutput {
    /// The command decoded from the line, if the line held one.
    pub fn response(&self) -> (response: &Option<EngineCommand>)
        ensures
            *response == self.response,
    {
        &self.response
    }

    /// The line as it was read.
    pub fn raw_str(&self) -> (raw: &str)
        ensures
            raw@ == self.raw_str@,
    {
        self.raw_str.as_str()
    }
}

/// What the codec made of one line: a decoded output, [`Error::IllegalSyntax`](crate::error::Error)
/// for a malformed line, or the failure of the stream.
pub type Decoded = Result<EngineOutput, crate::error::Error>;

/// Model of a [`Decoded`].
pub type DecodedView = Result<EngineOutputView, crate::error::ErrorView>;

/// The model of what the codec made of one line.
pub open spec fn decoded_view(decoded: Decoded) -> DecodedView {
    match decoded {
        Ok(output) => Ok(output@),
        Err(error) => Err(error@),
    }
}

} // verus!
