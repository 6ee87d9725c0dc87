use std::time::Duration;
use usi::{
    EngineCommand, EngineInfo, EngineOutput, Error, GameOverKind, GuiCommand, MateParam,
    ThinkParams,
};

#[test]
fn only_a_malformed_line_is_a_syntax_failure() {
    assert!(Error::IllegalSyntax.is_syntax());
    assert!(!Error::IllegalOperation.is_syntax());
    assert!(!Error::EngineIo("illegal syntax".to_string()).is_syntax());
    assert!(!Error::HandlerError("illegal syntax".to_string()).is_syntax());
}

#[test]
fn a_copied_command_equals_its_source() {
    let commands = vec![
        GuiCommand::GameOver(GameOverKind::Draw),
        GuiCommand::Go(ThinkParams::new().mate(MateParam::Timeout(Duration::from_secs(30)))),
        GuiCommand::IsReady,
        GuiCommand::Ponderhit,
        GuiCommand::Position("startpos moves 7g7f 3c3d".to_string()),
        GuiCommand::SetOption("USI_Hash".to_string(), Some("1024".to_string())),
        GuiCommand::SetOption("Clear".to_string(), None),
        GuiCommand::Stop,
        GuiCommand::Usi,
        GuiCommand::UsiNewGame,
        GuiCommand::Quit,
    ];
    for command in &commands {
        assert_eq!(&command.clone(), command);
    }
}

#[test]
fn an_output_gives_its_command_and_its_line() {
    let output =
        EngineOutput { response: Some(EngineCommand::ReadyOk), raw_str: "readyok\n".to_string() };
    assert_eq!(output.response(), &Some(EngineCommand::ReadyOk));
    assert_eq!(output.raw_str(), "readyok\n");
    let blank = EngineOutput { response: None, raw_str: "\n".to_string() };
    assert_eq!(blank.response(), &None);
}

#[test]
fn a_fresh_info_is_empty() {
    let info = EngineInfo::default();
    assert_eq!(info.name(), "");
    assert_eq!(info.options().len(), 0);
    let copy = info.clone();
    assert_eq!(copy.name(), "");
    assert_eq!(copy.options().len(), 0);
}

#[test]
fn think_params_builders_set_one_limit_each() {
    let unset = ThinkParams::new();
    let time = Duration::from_millis(2500);
    assert_eq!(unset.byoyomi(time), ThinkParams { byoyomi: Some(time), ..unset });
    assert_eq!(unset.infinite(), ThinkParams { infinite: true, ..unset });
    assert_eq!(
        unset.mate(MateParam::Timeout(time)),
        ThinkParams { mate: Some(MateParam::Timeout(time)), ..unset }
    );
    assert_eq!(
        unset.byoyomi(time).infinite(),
        ThinkParams { byoyomi: Some(time), infinite: true, ..unset }
    );
}
