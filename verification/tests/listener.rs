use usi::{
    BestMoveParams, EngineCommand, EngineOutput, Error, ListenEvent, ListenStep, Listener,
    UsiEngineHandler,
};

fn listener() -> Listener {
    UsiEngineHandler::spawn(Ok(())).unwrap().listen().unwrap()
}

fn best_move(best: &str) -> EngineOutput {
    EngineOutput {
        response: Some(EngineCommand::BestMove(BestMoveParams::MakeMove(best.to_string(), None))),
        raw_str: format!("bestmove {}", best),
    }
}

#[test]
fn listener_passes_each_output_to_the_hook() {
    let mut listener = listener();
    assert!(matches!(listener.resume(ListenEvent::Started), ListenStep::Read));
    for best in ["5g5f", "2h7h", "8c8d"] {
        let step = listener.resume(ListenEvent::Decoded(Ok(best_move(best))));
        assert!(matches!(step, ListenStep::Invoke(output) if output == best_move(best)));
        assert!(matches!(listener.resume(ListenEvent::Hooked(Ok(()))), ListenStep::Read));
    }
}

#[test]
fn listener_passes_outputs_without_a_command() {
    let mut listener = listener();
    assert!(matches!(listener.resume(ListenEvent::Started), ListenStep::Read));
    let blank = EngineOutput { response: None, raw_str: String::new() };
    let step = listener.resume(ListenEvent::Decoded(Ok(blank.clone())));
    assert!(matches!(step, ListenStep::Invoke(output) if output == blank));
}

#[test]
fn listener_skips_malformed_lines() {
    let mut listener = listener();
    assert!(matches!(listener.resume(ListenEvent::Started), ListenStep::Read));
    for _ in 0..3 {
        let step = listener.resume(ListenEvent::Decoded(Err(Error::IllegalSyntax)));
        assert!(matches!(step, ListenStep::Read));
    }
    let step = listener.resume(ListenEvent::Decoded(Ok(best_move("5g5f"))));
    assert!(matches!(step, ListenStep::Invoke(_)));
}

#[test]
fn listener_ends_with_the_stream() {
    let mut listener = listener();
    assert!(matches!(listener.resume(ListenEvent::Started), ListenStep::Read));
    let step = listener.resume(ListenEvent::Decoded(Err(Error::EngineIo("closed".to_string()))));
    assert!(matches!(step, ListenStep::Stop(Error::EngineIo(message)) if message == "closed"));
    let again = listener.resume(ListenEvent::Decoded(Ok(best_move("5g5f"))));
    assert!(matches!(again, ListenStep::Stop(Error::IllegalOperation)));
}

#[test]
fn listener_ends_with_the_failure_of_the_hook() {
    let mut listener = listener();
    assert!(matches!(listener.resume(ListenEvent::Started), ListenStep::Read));
    assert!(matches!(
        listener.resume(ListenEvent::Decoded(Ok(best_move("5g5f")))),
        ListenStep::Invoke(_)
    ));
    let step = listener.resume(ListenEvent::Hooked(Err("receiver is gone".to_string())));
    assert!(matches!(
        step,
        ListenStep::Stop(Error::HandlerError(message)) if message == "receiver is gone"
    ));
}

#[test]
fn listener_refuses_events_out_of_turn() {
    let mut unstarted = listener();
    assert!(matches!(
        unstarted.resume(ListenEvent::Decoded(Ok(best_move("5g5f")))),
        ListenStep::Stop(Error::IllegalOperation)
    ));

    let mut reading = listener();
    assert!(matches!(reading.resume(ListenEvent::Started), ListenStep::Read));
    assert!(matches!(
        reading.resume(ListenEvent::Hooked(Ok(()))),
        ListenStep::Stop(Error::IllegalOperation)
    ));
}
