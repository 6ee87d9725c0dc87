use usi::{
    Effect, EngineCommand, EngineInfo, EngineOutput, Error, GuiCommand, IdParams, OptionKind,
    OptionParams, Outcome, Progress, ThinkParams, UsiEngineHandler,
};

fn handler() -> UsiEngineHandler {
    UsiEngineHandler::spawn(Ok(())).unwrap()
}

fn line(command: EngineCommand, raw: &str) -> Outcome {
    Outcome::Decoded(Ok(EngineOutput { response: Some(command), raw_str: raw.to_string() }))
}

fn malformed() -> Outcome {
    Outcome::Decoded(Err(Error::IllegalSyntax))
}

fn id_name(name: &str) -> Outcome {
    line(EngineCommand::Id(IdParams::Name(name.to_string())), "id name")
}

fn option(name: &str, value: OptionKind) -> Outcome {
    line(EngineCommand::Option(OptionParams { name: name.to_string(), value }), "option")
}

fn spin(default: Option<i32>) -> OptionKind {
    OptionKind::Spin { default, min: Some(1), max: Some(64) }
}

fn is_write(progress: &Progress, command: &GuiCommand) -> bool {
    matches!(progress, Progress::Perform(Effect::Write(written)) if written == command)
}

fn is_read(progress: &Progress) -> bool {
    matches!(progress, Progress::Perform(Effect::Read))
}

fn is_illegal(progress: &Progress) -> bool {
    matches!(progress, Progress::Failed(Error::IllegalOperation))
}

/// Runs a handshake whose opening command is written and which then reads
/// the given lines; the last line must end it.
fn handshake(handler: &mut UsiEngineHandler, lines: Vec<Outcome>) -> Progress {
    assert!(is_write(&handler.get_info(), &GuiCommand::Usi));
    assert!(is_read(&handler.resume(Outcome::Written(Ok(())))));
    let count = lines.len();
    let mut last = Progress::Done;
    for (at, outcome) in lines.into_iter().enumerate() {
        last = handler.resume(outcome);
        if at + 1 < count {
            assert!(is_read(&last), "line {} should be followed by a read", at);
        }
    }
    last
}

fn info_of(progress: Progress) -> EngineInfo {
    match progress {
        Progress::Info(info) => info,
        other => panic!("the handshake ended with {:?}", other),
    }
}

#[test]
fn handshake_yields_name_and_options() {
    let mut handler = handler();
    let end = handshake(
        &mut handler,
        vec![
            id_name("TestEngine"),
            option("Threads", spin(Some(4))),
            line(EngineCommand::UsiOk, "usiok"),
        ],
    );
    let info = info_of(end);
    assert_eq!(info.name(), "TestEngine");
    assert_eq!(info.options().get("Threads").map(|text| text.as_str()), Some("4"));
    assert_eq!(info.options().len(), 1);
}

#[test]
fn handshake_ignores_malformed_lines() {
    let mut handler = handler();
    let end = handshake(
        &mut handler,
        vec![
            malformed(),
            id_name("First"),
            malformed(),
            malformed(),
            option("Threads", spin(Some(4))),
            option("USI_Ponder", OptionKind::Check { default: Some(true) }),
            malformed(),
            id_name("Second"),
            option("Threads", spin(Some(8))),
            line(EngineCommand::Id(IdParams::Author("Somebody".to_string())), "id author"),
            line(EngineCommand::Info("depth 1".to_string()), "info depth 1"),
            Outcome::Decoded(Ok(EngineOutput { response: None, raw_str: String::new() })),
            malformed(),
            line(EngineCommand::UsiOk, "usiok"),
        ],
    );
    let info = info_of(end);
    assert_eq!(info.name(), "Second");
    assert_eq!(info.options().len(), 2);
    assert_eq!(info.options().get("Threads").map(|text| text.as_str()), Some("8"));
    assert_eq!(info.options().get("USI_Ponder").map(|text| text.as_str()), Some("true"));
    assert_eq!(info.options().get("Hash"), None);
}

#[test]
fn a_copied_info_holds_the_same() {
    let mut handler = handler();
    let info = info_of(handshake(
        &mut handler,
        vec![
            id_name("Engine"),
            option("Threads", spin(Some(2))),
            option("Book", OptionKind::Filename { default: Some("book.db".to_string()) }),
            line(EngineCommand::UsiOk, "usiok"),
        ],
    ));
    let copy = info.clone();
    assert_eq!(copy.name(), "Engine");
    assert_eq!(copy.options().len(), 2);
    assert_eq!(copy.options().get("Threads").map(|text| text.as_str()), Some("2"));
    assert_eq!(copy.options().get("Book").map(|text| text.as_str()), Some("book.db"));
}

#[test]
fn handshake_without_declarations_yields_empty_info() {
    let mut handler = handler();
    let info = info_of(handshake(&mut handler, vec![line(EngineCommand::UsiOk, "usiok")]));
    assert_eq!(info.name(), "");
    assert_eq!(info.options().len(), 0);
}

#[test]
fn second_handshake_starts_from_nothing() {
    let mut handler = handler();
    let first = handshake(
        &mut handler,
        vec![
            id_name("Engine"),
            option("Hash", spin(Some(16))),
            line(EngineCommand::UsiOk, "usiok"),
        ],
    );
    assert_eq!(info_of(first).name(), "Engine");
    let second = info_of(handshake(&mut handler, vec![line(EngineCommand::UsiOk, "usiok")]));
    assert_eq!(second.name(), "");
    assert_eq!(second.options().len(), 0);
}

#[test]
fn option_defaults_are_rendered_as_text() {
    let mut handler = handler();
    let end = handshake(
        &mut handler,
        vec![
            option("On", OptionKind::Check { default: Some(true) }),
            option("Off", OptionKind::Check { default: Some(false) }),
            option("Check", OptionKind::Check { default: None }),
            option("Spin", spin(Some(-12))),
            option("NoSpin", spin(None)),
            option(
                "Combo",
                OptionKind::Combo {
                    default: Some("fast".to_string()),
                    vars: vec!["fast".to_string(), "slow".to_string()],
                },
            ),
            option("NoCombo", OptionKind::Combo { default: None, vars: Vec::new() }),
            option("Button", OptionKind::Button { default: Some("press".to_string()) }),
            option("NoButton", OptionKind::Button { default: None }),
            option("String", OptionKind::String { default: Some("some text".to_string()) }),
            option("Filename", OptionKind::Filename { default: Some("book.bin".to_string()) }),
            line(EngineCommand::UsiOk, "usiok"),
        ],
    );
    let info = info_of(end);
    let text = |name: &str| info.options().get(name).map(|text| text.as_str().to_string());
    assert_eq!(text("On").as_deref(), Some("true"));
    assert_eq!(text("Off").as_deref(), Some("false"));
    assert_eq!(text("Check").as_deref(), Some(""));
    assert_eq!(text("Spin").as_deref(), Some("-12"));
    assert_eq!(text("NoSpin").as_deref(), Some(""));
    assert_eq!(text("Combo").as_deref(), Some("fast"));
    assert_eq!(text("NoCombo").as_deref(), Some(""));
    assert_eq!(text("Button").as_deref(), Some("press"));
    assert_eq!(text("NoButton").as_deref(), Some(""));
    assert_eq!(text("String").as_deref(), Some("some text"));
    assert_eq!(text("Filename").as_deref(), Some("book.bin"));
    assert_eq!(info.options().len(), 11);
}

#[test]
fn default_text_of_each_kind() {
    assert_eq!(OptionKind::Check { default: Some(true) }.default_text(), "true");
    assert_eq!(OptionKind::Check { default: Some(false) }.default_text(), "false");
    assert_eq!(OptionKind::Spin { default: Some(256), min: None, max: None }.default_text(), "256");
    assert_eq!(OptionKind::String { default: None }.default_text(), "");
}

#[test]
fn handshake_stops_at_a_stream_failure() {
    let mut handler = handler();
    let end = handshake(
        &mut handler,
        vec![
            id_name("Engine"),
            malformed(),
            Outcome::Decoded(Err(Error::EngineIo("stream closed".to_string()))),
        ],
    );
    assert!(
        matches!(end, Progress::Failed(Error::EngineIo(message)) if message == "stream closed")
    );
    // The handler is free again, and the handshake counts as started.
    assert!(is_illegal(&handler.send_command_before_handshake(&GuiCommand::Stop)));
    assert!(is_write(&handler.prepare(), &GuiCommand::IsReady));
}

#[test]
fn handshake_fails_when_the_opening_cannot_be_written() {
    let mut handler = handler();
    assert!(is_write(&handler.get_info(), &GuiCommand::Usi));
    let end = handler.resume(Outcome::Written(Err(Error::EngineIo("broken pipe".to_string()))));
    assert!(matches!(end, Progress::Failed(Error::EngineIo(message)) if message == "broken pipe"));
    assert!(is_illegal(&handler.send_command_before_handshake(&GuiCommand::Stop)));
}

#[test]
fn send_before_handshake_writes_the_command() {
    let mut handler = handler();
    let command = GuiCommand::SetOption("Protocol".to_string(), Some("usi".to_string()));
    assert!(is_write(&handler.send_command_before_handshake(&command), &command));
    assert!(matches!(handler.resume(Outcome::Written(Ok(()))), Progress::Done));
    let second = GuiCommand::SetOption("UCI_Variant".to_string(), None);
    assert!(is_write(&handler.send_command_before_handshake(&second), &second));
    let failed = handler.resume(Outcome::Written(Err(Error::EngineIo("full".to_string()))));
    assert!(matches!(failed, Progress::Failed(Error::EngineIo(message)) if message == "full"));
}

#[test]
fn send_before_handshake_is_illegal_after_the_handshake() {
    let mut handler = handler();
    let _ = handshake(&mut handler, vec![line(EngineCommand::UsiOk, "usiok")]);
    let command = GuiCommand::SetOption("Protocol".to_string(), Some("usi".to_string()));
    assert!(is_illegal(&handler.send_command_before_handshake(&command)));
    // An ordinary send is still fine.
    assert!(is_write(&handler.send_command(&command), &command));
}

#[test]
fn send_command_writes_and_awaits_nothing() {
    let mut handler = handler();
    let go = GuiCommand::Go(ThinkParams::new().infinite());
    assert!(is_write(&handler.send_command(&go), &go));
    assert!(matches!(handler.resume(Outcome::Written(Ok(()))), Progress::Done));
    let position = GuiCommand::Position("startpos".to_string());
    assert!(is_write(&handler.send_command(&position), &position));
    let failed = handler.resume(Outcome::Written(Err(Error::EngineIo("gone".to_string()))));
    assert!(matches!(failed, Progress::Failed(Error::EngineIo(message)) if message == "gone"));
}

#[test]
fn prepare_waits_for_the_acknowledgement() {
    let mut handler = handler();
    assert!(is_write(&handler.prepare(), &GuiCommand::IsReady));
    assert!(is_read(&handler.resume(Outcome::Written(Ok(())))));
    assert!(is_read(&handler.resume(malformed())));
    assert!(is_read(&handler.resume(id_name("Engine"))));
    assert!(is_read(&handler.resume(line(EngineCommand::UsiOk, "usiok"))));
    assert!(is_read(&handler.resume(line(EngineCommand::Info("x".to_string()), "info x"))));
    assert!(matches!(handler.resume(line(EngineCommand::ReadyOk, "readyok")), Progress::Done));
    // Asking for readiness does not start the handshake.
    assert!(is_write(&handler.send_command_before_handshake(&GuiCommand::Stop), &GuiCommand::Stop));
}

#[test]
fn prepare_fails_with_the_stream() {
    let mut handler = handler();
    assert!(is_write(&handler.prepare(), &GuiCommand::IsReady));
    let unwritten = handler.resume(Outcome::Written(Err(Error::EngineIo("closed".to_string()))));
    assert!(matches!(unwritten, Progress::Failed(Error::EngineIo(message)) if message == "closed"));

    assert!(is_write(&handler.prepare(), &GuiCommand::IsReady));
    assert!(is_read(&handler.resume(Outcome::Written(Ok(())))));
    assert!(is_read(&handler.resume(malformed())));
    let unread = handler.resume(Outcome::Decoded(Err(Error::EngineIo("eof".to_string()))));
    assert!(matches!(unread, Progress::Failed(Error::EngineIo(message)) if message == "eof"));
}

#[test]
fn get_info_after_listen_is_illegal() {
    let mut handler = handler();
    assert!(handler.listen().is_ok());
    assert!(is_illegal(&handler.get_info()));
    // Refused before anything was written, and the handshake did not start.
    assert!(is_write(&handler.send_command_before_handshake(&GuiCommand::Stop), &GuiCommand::Stop));
    assert!(matches!(handler.resume(Outcome::Written(Ok(()))), Progress::Done));
    assert!(is_illegal(&handler.get_info()));
}

#[test]
fn prepare_after_listen_is_illegal() {
    let mut handler = handler();
    let _ = handshake(&mut handler, vec![line(EngineCommand::UsiOk, "usiok")]);
    assert!(handler.listen().is_ok());
    assert!(is_illegal(&handler.prepare()));
    assert!(is_illegal(&handler.get_info()));
}

#[test]
fn listen_twice_is_illegal() {
    let mut handler = handler();
    assert!(handler.listen().is_ok());
    assert!(matches!(handler.listen(), Err(Error::IllegalOperation)));
    assert!(is_write(&handler.send_command(&GuiCommand::Stop), &GuiCommand::Stop));
    assert!(matches!(handler.resume(Outcome::Written(Ok(()))), Progress::Done));
    assert!(matches!(handler.listen(), Err(Error::IllegalOperation)));
}

#[test]
fn sending_goes_on_after_listen() {
    let mut handler = handler();
    assert!(handler.listen().is_ok());
    assert!(is_write(&handler.send_command(&GuiCommand::Usi), &GuiCommand::Usi));
    assert!(matches!(handler.resume(Outcome::Written(Ok(()))), Progress::Done));
}

#[test]
fn kill_quits_then_terminates() {
    let mut handler = handler();
    assert!(is_write(&handler.kill(), &GuiCommand::Quit));
    assert!(matches!(
        handler.resume(Outcome::Written(Ok(()))),
        Progress::Perform(Effect::Terminate)
    ));
    assert!(matches!(handler.resume(Outcome::Terminated(Ok(()))), Progress::Done));
}

#[test]
fn kill_leaves_the_process_alone_when_quit_cannot_be_sent() {
    let mut handler = handler();
    assert!(is_write(&handler.kill(), &GuiCommand::Quit));
    let end = handler.resume(Outcome::Written(Err(Error::EngineIo("broken pipe".to_string()))));
    assert!(matches!(end, Progress::Failed(Error::EngineIo(message)) if message == "broken pipe"));
    // Nothing is under way any more: a termination has nothing to answer.
    assert!(is_illegal(&handler.resume(Outcome::Terminated(Ok(())))));
}

#[test]
fn kill_reports_a_failed_termination() {
    let mut handler = handler();
    assert!(is_write(&handler.kill(), &GuiCommand::Quit));
    assert!(matches!(
        handler.resume(Outcome::Written(Ok(()))),
        Progress::Perform(Effect::Terminate)
    ));
    let failure = Error::EngineIo("no such process".to_string());
    let end = handler.resume(Outcome::Terminated(Err(failure)));
    assert!(
        matches!(end, Progress::Failed(Error::EngineIo(message)) if message == "no such process")
    );
}

#[test]
fn spawn_fails_with_the_launch() {
    let failed = UsiEngineHandler::spawn(Err(Error::EngineIo("no such file".to_string())));
    assert!(matches!(failed, Err(Error::EngineIo(message)) if message == "no such file"));
}

#[test]
fn one_operation_at_a_time() {
    let mut handler = handler();
    assert!(is_write(&handler.get_info(), &GuiCommand::Usi));
    assert!(is_illegal(&handler.prepare()));
    assert!(is_illegal(&handler.send_command(&GuiCommand::Stop)));
    assert!(is_illegal(&handler.kill()));
    assert!(is_illegal(&handler.get_info()));
    assert!(matches!(handler.listen(), Err(Error::IllegalOperation)));
    // The handshake under way is not disturbed.
    assert!(is_read(&handler.resume(Outcome::Written(Ok(())))));
    assert!(is_read(&handler.resume(id_name("Engine"))));
    let info = info_of(handler.resume(line(EngineCommand::UsiOk, "usiok")));
    assert_eq!(info.name(), "Engine");
    assert!(handler.listen().is_ok());
}

#[test]
fn an_outcome_that_answers_nothing_is_illegal() {
    let mut handler = handler();
    assert!(is_illegal(&handler.resume(Outcome::Written(Ok(())))));
    assert!(is_illegal(&handler.resume(malformed())));

    assert!(is_write(&handler.prepare(), &GuiCommand::IsReady));
    assert!(is_illegal(&handler.resume(line(EngineCommand::ReadyOk, "readyok"))));
    // The query was abandoned.
    assert!(is_illegal(&handler.resume(Outcome::Written(Ok(())))));
    assert!(is_write(&handler.prepare(), &GuiCommand::IsReady));
}
