use std::time::Duration;
use usi::{
    BestMoveParams, CheckmateParams, EngineCommand, EngineConfig, EngineOutput, Error, GuiCommand,
    IdParams,
    ListenEvent, ListenStep, MateParam, ThinkParams, ThreadCommand, ThreadedEngine,
    UsiEngineHandler,
};

fn config() -> EngineConfig {
    EngineConfig {
        path: "/opt/engines/test/engine".to_string(),
        working_dir: None,
        pre_handshake_options: Vec::new(),
    }
}

fn engine() -> ThreadedEngine {
    ThreadedEngine::spawn(
        &config(),
        Some("/opt/engines/test".to_string()),
        Some("TestEngine".to_string()),
    )
    .unwrap()
}

fn output(command: EngineCommand) -> EngineOutput {
    EngineOutput { response: Some(command), raw_str: "raw".to_string() }
}

fn best_move(best: &str, ponder: Option<&str>) -> EngineOutput {
    output(EngineCommand::BestMove(BestMoveParams::MakeMove(
        best.to_string(),
        ponder.map(|ponder| ponder.to_string()),
    )))
}

fn checkmate(params: CheckmateParams) -> EngineOutput {
    output(EngineCommand::Checkmate(params))
}

/// Puts decoded lines through a listening loop whose hook passes move
/// results on to the facade, as the listener of a threaded engine does.
fn listen_to(engine: &mut ThreadedEngine, lines: Vec<Result<EngineOutput, Error>>) {
    let mut listener = UsiEngineHandler::spawn(Ok(())).unwrap().listen().unwrap();
    assert!(matches!(listener.resume(ListenEvent::Started), ListenStep::Read));
    for line in lines {
        match listener.resume(ListenEvent::Decoded(line)) {
            ListenStep::Read => {}
            ListenStep::Invoke(output) => {
                if let Some(result) = ThreadedEngine::move_result(&output) {
                    engine.deliver(result);
                }
                assert!(matches!(listener.resume(ListenEvent::Hooked(Ok(()))), ListenStep::Read));
            }
            ListenStep::Stop(error) => panic!("the listener stopped with {:?}", error),
        }
    }
}

#[test]
fn facade_keeps_the_reported_name() {
    let engine = engine();
    assert_eq!(engine.name(), "TestEngine");
}

#[test]
fn facade_name_does_not_change() {
    let mut engine = engine();
    engine.is_ready();
    engine.deliver("5g5f".to_string());
    let _ = engine.poll_move();
    let _ = engine.next_command();
    assert_eq!(engine.name(), "TestEngine");
}

#[test]
fn facade_settles_for_unknown_engine_when_no_name_arrives() {
    let engine =
        ThreadedEngine::spawn(&config(), Some("/opt/engines/test".to_string()), None).unwrap();
    assert_eq!(engine.name(), "Unknown Engine");
}

#[test]
fn facade_of_an_engine_that_could_not_be_launched() {
    let unreachable = EngineConfig {
        path: "/no/such/dir/engine".to_string(),
        working_dir: None,
        pre_handshake_options: Vec::new(),
    };
    let mut engine = ThreadedEngine::spawn(
        &unreachable,
        Some("/no/such/dir".to_string()),
        Some("Engine Failed".to_string()),
    )
    .unwrap();
    assert_eq!(engine.name(), "Engine Failed");
    engine.set_position("startpos");
    engine.go_infinite();
    assert_eq!(engine.poll_move(), None);
}

#[test]
fn facade_needs_a_working_directory() {
    let failed = ThreadedEngine::spawn(&config(), None, Some("TestEngine".to_string()));
    assert!(matches!(
        failed,
        Err(Error::EngineIo(message)) if message == "Could not determine engine working directory"
    ));
}

#[test]
fn configured_working_directory_comes_first() {
    let configured = EngineConfig { working_dir: Some("/var/engine".to_string()), ..config() };
    assert_eq!(
        configured.resolve_working_dir(Some("/opt/engines/test".to_string())),
        Ok("/var/engine".to_string())
    );
    assert_eq!(configured.resolve_working_dir(None), Ok("/var/engine".to_string()));
    assert!(ThreadedEngine::spawn(&configured, None, None).is_ok());
}

#[test]
fn working_directory_defaults_to_the_parent() {
    assert_eq!(
        config().resolve_working_dir(Some("/opt/engines/test".to_string())),
        Ok("/opt/engines/test".to_string())
    );
    assert_eq!(config().resolve_working_dir(Some(String::new())), Ok(String::new()));
    assert_eq!(
        config().resolve_working_dir(None),
        Err(Error::EngineIo("Could not determine engine working directory".to_string()))
    );
}

#[test]
fn orders_are_queued_in_the_order_given() {
    let mut engine = engine();
    assert_eq!(engine.next_command(), None);
    engine.set_option("USI_Ponder", Some("true"));
    engine.set_option("Clear", None);
    engine.is_ready();
    engine.set_position("lnsgkgsnl/1r5b1/ppppppppp/9/9/9/PPPPPPPPP/1B5R1/LNSGKGSNL b - 1");
    engine.go(ThinkParams::new().byoyomi(Duration::from_secs(1)).infinite());
    engine.go_byoyomi(Duration::from_secs(5));
    engine.go_infinite();
    engine.go_mate(Some(Duration::from_millis(1500)));
    engine.go_mate(None);
    engine.stop();
    engine.quit();

    let unset = ThinkParams::new();
    let expected = vec![
        ThreadCommand::SetOption {
            name: "USI_Ponder".to_string(),
            value: Some("true".to_string()),
        },
        ThreadCommand::SetOption { name: "Clear".to_string(), value: None },
        ThreadCommand::IsReady,
        ThreadCommand::Position {
            sfen: "lnsgkgsnl/1r5b1/ppppppppp/9/9/9/PPPPPPPPP/1B5R1/LNSGKGSNL b - 1".to_string(),
        },
        ThreadCommand::Go(ThinkParams {
            byoyomi: Some(Duration::from_secs(1)),
            infinite: true,
            ..unset
        }),
        ThreadCommand::Go(ThinkParams { byoyomi: Some(Duration::from_secs(5)), ..unset }),
        ThreadCommand::Go(ThinkParams { infinite: true, ..unset }),
        ThreadCommand::Go(ThinkParams {
            mate: Some(MateParam::Timeout(Duration::from_millis(1500))),
            ..unset
        }),
        ThreadCommand::Go(ThinkParams { mate: Some(MateParam::Infinite), ..unset }),
        ThreadCommand::Stop,
        ThreadCommand::Quit,
    ];
    for command in expected {
        assert_eq!(engine.next_command(), Some(command));
    }
    assert_eq!(engine.next_command(), None);
}

#[test]
fn think_params_start_unset() {
    let unset = ThinkParams::new();
    assert_eq!(
        unset,
        ThinkParams {
            ponder: false,
            btime: None,
            wtime: None,
            byoyomi: None,
            binc: None,
            winc: None,
            infinite: false,
            mate: None,
        }
    );
    assert_eq!(unset.mate(MateParam::Infinite).mate, Some(MateParam::Infinite));
}

#[test]
fn poll_move_returns_nothing_while_nothing_was_produced() {
    let mut engine = engine();
    assert_eq!(engine.poll_move(), None);
    engine.go_infinite();
    assert_eq!(engine.poll_move(), None);
    listen_to(
        &mut engine,
        vec![
            Err(Error::IllegalSyntax),
            Ok(output(EngineCommand::Info("depth 3".to_string()))),
            Ok(output(EngineCommand::ReadyOk)),
            Ok(output(EngineCommand::Id(IdParams::Name("Engine".to_string())))),
            Ok(EngineOutput { response: None, raw_str: String::new() }),
        ],
    );
    assert_eq!(engine.poll_move(), None);
}

#[test]
fn poll_move_yields_the_best_move() {
    let mut engine = engine();
    listen_to(&mut engine, vec![Ok(best_move("5g5f", None))]);
    assert_eq!(engine.poll_move(), Some("5g5f".to_string()));
    assert_eq!(engine.poll_move(), None);
}

#[test]
fn poll_move_yields_resign_on_resignation() {
    let mut engine = engine();
    listen_to(&mut engine, vec![Ok(output(EngineCommand::BestMove(BestMoveParams::Resign)))]);
    assert_eq!(engine.poll_move(), Some("resign".to_string()));
    assert_eq!(engine.poll_move(), None);
}

#[test]
fn poll_move_yields_each_result_once_and_in_order() {
    let mut engine = engine();
    listen_to(
        &mut engine,
        vec![
            Ok(best_move("7g7f", None)),
            Err(Error::IllegalSyntax),
            Ok(best_move("3c3d", Some("2g2f"))),
            Ok(output(EngineCommand::Info("nodes 12".to_string()))),
            Ok(best_move("7g7f", None)),
        ],
    );
    assert_eq!(engine.poll_move(), Some("7g7f".to_string()));
    assert_eq!(engine.poll_move(), Some("3c3d".to_string()));
    listen_to(&mut engine, vec![Ok(best_move("8h2b+", None))]);
    assert_eq!(engine.poll_move(), Some("7g7f".to_string()));
    assert_eq!(engine.poll_move(), Some("8h2b+".to_string()));
    assert_eq!(engine.poll_move(), None);
    assert_eq!(engine.poll_move(), None);
}

#[test]
fn move_result_of_a_best_move_drops_the_ponder_move() {
    assert_eq!(
        ThreadedEngine::move_result(&best_move("3c3d", Some("2g2f"))),
        Some("3c3d".to_string())
    );
    assert_eq!(ThreadedEngine::move_result(&best_move("3c3d", None)), Some("3c3d".to_string()));
}

#[test]
fn move_result_of_a_declared_win_is_nothing() {
    assert_eq!(
        ThreadedEngine::move_result(&output(EngineCommand::BestMove(BestMoveParams::Win))),
        None
    );
}

#[test]
fn move_result_of_a_mate_search() {
    let line = vec!["G*5b".to_string(), "4a5b".to_string(), "S*4b".to_string()];
    assert_eq!(
        ThreadedEngine::move_result(&checkmate(CheckmateParams::Mate(line))),
        Some("G*5b".to_string())
    );
    assert_eq!(
        ThreadedEngine::move_result(&checkmate(CheckmateParams::Mate(Vec::new()))),
        Some("resign".to_string())
    );
    for outcome in
        [CheckmateParams::NoMate, CheckmateParams::NotImplemented, CheckmateParams::Timeout]
    {
        assert_eq!(ThreadedEngine::move_result(&checkmate(outcome)), Some("resign".to_string()));
    }
}

#[test]
fn move_result_of_other_outputs_is_nothing() {
    for command in [
        EngineCommand::Id(IdParams::Name("Engine".to_string())),
        EngineCommand::Id(IdParams::Author("Somebody".to_string())),
        EngineCommand::Info("depth 1".to_string()),
        EngineCommand::ReadyOk,
        EngineCommand::UsiOk,
        EngineCommand::Unknown,
    ] {
        assert_eq!(ThreadedEngine::move_result(&output(command)), None);
    }
    assert_eq!(
        ThreadedEngine::move_result(&EngineOutput { response: None, raw_str: String::new() }),
        None
    );
}

#[test]
fn orders_become_protocol_commands() {
    let params = ThinkParams::new().byoyomi(Duration::from_secs(3));
    assert_eq!(
        ThreadCommand::SetOption { name: "Hash".to_string(), value: Some("64".to_string()) }
            .into_gui(),
        GuiCommand::SetOption("Hash".to_string(), Some("64".to_string()))
    );
    assert_eq!(ThreadCommand::IsReady.into_gui(), GuiCommand::IsReady);
    assert_eq!(
        ThreadCommand::Position { sfen: "startpos".to_string() }.into_gui(),
        GuiCommand::Position("startpos".to_string())
    );
    assert_eq!(ThreadCommand::Go(params).into_gui(), GuiCommand::Go(params));
    assert_eq!(ThreadCommand::Stop.into_gui(), GuiCommand::Stop);
    assert_eq!(ThreadCommand::Quit.into_gui(), GuiCommand::Quit);
    assert!(ThreadCommand::Quit.is_quit());
    assert!(!ThreadCommand::Stop.is_quit());
}
