//! What holds of every session, whatever the engine does.

use crate::error::ErrorView;
use crate::process::engine::{
    rendered_default, EffectView, EngineInfoView, HandlerView, OutcomeView, Pending, ProgressView,
    Request,
};
use crate::process::listener::{ListenEventView, ListenStepView, ListenerState};
use crate::protocol::{DecodedView, EngineCommandView, GuiCommandView, IdParamsView};
use vstd::prelude::*;

verus! {

/// The line is malformed: it is no protocol command.
pub open spec fn is_malformed(line: DecodedView) -> bool {
    line == Err::<crate::protocol::EngineOutputView, ErrorView>(ErrorView::IllegalSyntax)
}

/// Reading the line failed for good.
pub open spec fn is_fatal(line: DecodedView) -> bool {
    line is Err && !is_malformed(line)
}

/// The line is the command that completes the handshake.
pub open spec fn completes_handshake(line: DecodedView) -> bool {
    line matches Ok(output) && output.response == Some(EngineCommandView::UsiOk)
}

/// The line is the readiness acknowledgement.
pub open spec fn acknowledges_readiness(line: DecodedView) -> bool {
    line matches Ok(output) && output.response == Some(EngineCommandView::ReadyOk)
}

/// The name that the line declares, if it declares one.
pub open spec fn declared_name(line: DecodedView) -> Option<Seq<char>> {
    match line {
        Ok(output) => match output.response {
            Some(EngineCommandView::Id(IdParamsView::Name(name))) => Some(name),
            _ => None,
        },
        Err(_) => None,
    }
}

/// The name of the option that the line declares, if it declares one.
pub open spec fn declared_option(line: DecodedView) -> Option<Seq<char>> {
    match line {
        Ok(output) => match output.response {
            Some(EngineCommandView::Option(option)) => Some(option.name),
            _ => None,
        },
        Err(_) => None,
    }
}

/// The default, as text, of the option that the line declares.
pub open spec fn declared_default(line: DecodedView) -> Seq<char>
    recommends
        declared_option(line) is Some,
{
    match line {
        Ok(output) => match output.response {
            Some(EngineCommandView::Option(option)) => rendered_default(option.value),
            _ => Seq::empty(),
        },
        Err(_) => Seq::empty(),
    }
}

/// The name declared last in `lines`; the empty name where none is
/// declared.
pub open spec fn last_name(lines: Seq<DecodedView>) -> Seq<char>
    decreases lines.len(),
{
    if lines.len() == 0 {
        Seq::empty()
    } else {
        match declared_name(lines.last()) {
            Some(name) => name,
            None => last_name(lines.drop_last()),
        }
    }
}

/// What a handshake has collected after `lines`, having started from
/// `info`.
pub open spec fn collected(info: EngineInfoView, lines: Seq<DecodedView>) -> EngineInfoView
    decreases lines.len(),
{
    if lines.len() == 0 {
        info
    } else {
        let earlier = collected(info, lines.drop_last());
        match lines.last() {
            Ok(output) => match output.response {
                Some(command) => earlier.absorb(command),
                None => earlier,
            },
            Err(_) => earlier,
        }
    }
}

/// The outcomes of reading `lines` one after the other.
pub open spec fn read_outcomes(lines: Seq<DecodedView>) -> Seq<OutcomeView> {
    Seq::new(lines.len(), |i: int| OutcomeView::Decoded(lines[i]))
}

/// Something that happens to a handler.
pub enum HandlerInput {
    /// An operation is asked of it.
    Begin(Request),
    /// It is told how its last step went.
    Resume(OutcomeView),
    /// It is asked to hand the output stream to a listener.
    Listen,
}

impl HandlerView {
    /// The handler after one input.
    pub open spec fn apply(self, input: HandlerInput) -> HandlerView {
        match input {
            HandlerInput::Begin(request) => self.begin(request).0,
            HandlerInput::Resume(outcome) => self.resume(outcome).0,
            HandlerInput::Listen => self.listen().0,
        }
    }

    /// The handler after a run of inputs.
    pub open spec fn after(self, inputs: Seq<HandlerInput>) -> HandlerView
        decreases inputs.len(),
    {
        if inputs.len() == 0 {
            self
        } else {
            self.after(inputs.drop_last()).apply(inputs.last())
        }
    }

    /// The handler after it was told a run of outcomes, one after the
    /// other, and the step that followed each.
    pub open spec fn feed(self, outcomes: Seq<OutcomeView>) -> (HandlerView, Seq<ProgressView>)
        decreases outcomes.len(),
    {
        if outcomes.len() == 0 {
            (self, Seq::empty())
        } else {
            let (before, steps) = self.feed(outcomes.drop_last());
            let (after, step) = before.resume(outcomes.last());
            (after, steps.push(step))
        }
    }
}

/// Once the output stream has been handed to a listener it never comes
/// back: whatever is asked of the handler afterwards and whatever the engine
/// does, the handshake and the readiness query are refused as illegal
/// operations, and so is a second hand-over.
pub proof fn hand_over_is_final(handler: HandlerView, inputs: Seq<HandlerInput>)
    requires
        !handler.listener_stream,
    ensures
        ({
            let later = handler.after(inputs);
            let refused = (later, ProgressView::Failed(ErrorView::IllegalOperation));
            &&& !later.listener_stream
            &&& later.begin(Request::GetInfo) == refused
            &&& later.begin(Request::Prepare) == refused
            &&& later.listen() == (later, false)
        }),
    decreases inputs.len(),
{
    if inputs.len() > 0 {
        hand_over_is_final(handler, inputs.drop_last());
    }
}

/// A hand-over that is granted takes the output stream away.
pub proof fn hand_over_takes_the_stream(handler: HandlerView)
    requires
        handler.listen().1,
    ensures
        !handler.listen().0.listener_stream,
{
}

/// A handshake, once started, stays started: whatever is asked of the
/// handler afterwards and whatever the engine does, sending before the
/// handshake is refused as an illegal operation.
pub proof fn handshake_start_is_final(handler: HandlerView, inputs: Seq<HandlerInput>)
    requires
        handler.handshake_started,
    ensures
        ({
            let later = handler.after(inputs);
            &&& later.handshake_started
            &&& forall|command: GuiCommandView| #[trigger]
                later.begin(Request::SendBeforeHandshake(command)) == (
                    later,
                    ProgressView::Failed(ErrorView::IllegalOperation),
                )
        }),
    decreases inputs.len(),
{
    if inputs.len() > 0 {
        handshake_start_is_final(handler, inputs.drop_last());
    }
}

/// A send on a handler with no operation under way writes the command and
/// ends as the write went: no answer is awaited, and the handler is free
/// again.
pub proof fn send_ends_with_the_write(
    handler: HandlerView,
    command: GuiCommandView,
    written: Result<(), ErrorView>,
)
    requires
        handler.pending == Pending::Idle,
    ensures
        ({
            let (sending, first) = handler.begin(Request::Send(command));
            let (done, last) = sending.resume(OutcomeView::Written(written));
            &&& first == ProgressView::Perform(EffectView::Write(command))
            &&& last == ProgressView::reply(written)
            &&& done == handler.settled()
        }),
{
}

/// Ending the engine on a handler with no operation under way: the quit
/// command is written first. Only when that write succeeded is the process
/// terminated, and the operation ends as the termination went. When the
/// write failed the operation ends with that failure and the process is
/// not touched.
pub proof fn kill_terminates_only_after_quit(
    handler: HandlerView,
    written: Result<(), ErrorView>,
    terminated: Result<(), ErrorView>,
)
    requires
        handler.pending == Pending::Idle,
    ensures
        ({
            let (quitting, first) = handler.begin(Request::Kill);
            let (next, second) = quitting.resume(OutcomeView::Written(written));
            &&& first == ProgressView::Perform(EffectView::Write(GuiCommandView::Quit))
            &&& match written {
                Ok(()) => {
                    let (done, last) = next.resume(OutcomeView::Terminated(terminated));
                    &&& second == ProgressView::Perform(EffectView::Terminate)
                    &&& last == ProgressView::reply(terminated)
                    &&& done == handler.settled()
                },
                Err(failure) => second == ProgressView::Failed(failure) && next
                    == handler.settled(),
            }
        }),
{
}

/// In a handshake, lines that neither complete it nor fail for good keep
/// it reading: each is followed by another read, and what they declare is
/// collected.
pub proof fn handshake_reads_on(handler: HandlerView, lines: Seq<DecodedView>)
    requires
        handler.pending == Pending::Handshaking,
        forall|i: int|
            0 <= i < lines.len() ==> !completes_handshake(#[trigger] lines[i]) && !is_fatal(
                lines[i],
            ),
    ensures
        handler.feed(read_outcomes(lines)) == (
            HandlerView { info: collected(handler.info, lines), ..handler },
            Seq::new(lines.len(), |i: int| ProgressView::Perform(EffectView::Read)),
        ),
    decreases lines.len(),
{
    let outcomes = read_outcomes(lines);
    if lines.len() == 0 {
        assert(handler.feed(outcomes).1 =~= Seq::new(
            lines.len(),
            |i: int| ProgressView::Perform(EffectView::Read),
        ));
    } else {
        let earlier = lines.drop_last();
        assert(outcomes.drop_last() =~= read_outcomes(earlier));
        handshake_reads_on(handler, earlier);
        let line = lines[lines.len() - 1];
        assert(!completes_handshake(line) && !is_fatal(line));
        assert(handler.feed(outcomes).1 =~= Seq::new(
            lines.len(),
            |i: int| ProgressView::Perform(EffectView::Read),
        ));
    }
}

/// Malformed lines do not count: a handshake collects from a run of lines
/// what it collects from the same run without its malformed lines.
pub proof fn malformed_lines_do_not_count(info: EngineInfoView, lines: Seq<DecodedView>)
    ensures
        collected(info, lines) == collected(
            info,
            lines.filter(|line: DecodedView| !is_malformed(line)),
        ),
    decreases lines.len(),
{
    let well_formed = |line: DecodedView| !is_malformed(line);
    reveal(Seq::filter);
    if lines.len() > 0 {
        malformed_lines_do_not_count(info, lines.drop_last());
        let kept = lines.drop_last().filter(well_formed);
        if well_formed(lines.last()) {
            assert(kept.push(lines.last()).drop_last() =~= kept);
        }
    }
}

/// What a handshake that started from nothing has collected: the name
/// declared last, and for every option the default of its last
/// declaration; an option is known exactly when some line declared it.
pub proof fn collected_is_last_declared(lines: Seq<DecodedView>)
    ensures
        collected(EngineInfoView::empty(), lines).name == last_name(lines),
        forall|name: Seq<char>|
            collected(EngineInfoView::empty(), lines).options.contains_key(name) <==> exists|
                i: int,
            |
                0 <= i < lines.len() && #[trigger] declared_option(lines[i]) == Some(name),
        forall|i: int|
            0 <= i < lines.len() && (#[trigger] declared_option(lines[i])) is Some && (forall|
                j: int,
            |
                i < j < lines.len() ==> #[trigger] declared_option(lines[j]) != declared_option(
                    lines[i],
                )) ==> collected(EngineInfoView::empty(), lines).options[declared_option(
                lines[i],
            )->Some_0] == declared_default(lines[i]),
    decreases lines.len(),
{
    let info = collected(EngineInfoView::empty(), lines);
    if lines.len() > 0 {
        let earlier = lines.drop_last();
        let before = collected(EngineInfoView::empty(), earlier);
        let last = lines.len() - 1;
        collected_is_last_declared(earlier);
        assert forall|name: Seq<char>| info.options.contains_key(name) <==> exists|i: int|
            0 <= i < lines.len() && #[trigger] declared_option(lines[i]) == Some(name) by {
            if info.options.contains_key(name) {
                if before.options.contains_key(name) {
                    let i = choose|i: int|
                        0 <= i < earlier.len() && #[trigger] declared_option(earlier[i]) == Some(
                            name,
                        );
                    assert(declared_option(lines[i]) == Some(name));
                } else {
                    assert(declared_option(lines[last]) == Some(name));
                }
            }
            if exists|i: int|
                0 <= i < lines.len() && #[trigger] declared_option(lines[i]) == Some(name) {
                let i = choose|i: int|
                    0 <= i < lines.len() && #[trigger] declared_option(lines[i]) == Some(name);
                if i < last {
                    assert(declared_option(earlier[i]) == Some(name));
                }
            }
        }
        assert forall|i: int|
            0 <= i < lines.len() && (#[trigger] declared_option(lines[i])) is Some && (forall|
                j: int,
            |
                i < j < lines.len() ==> #[trigger] declared_option(lines[j]) != declared_option(
                    lines[i],
                )) implies info.options[declared_option(lines[i])->Some_0] == declared_default(
            lines[i],
        ) by {
            if i < last {
                assert(declared_option(lines[last]) != declared_option(lines[i]));
                assert forall|j: int| i < j < earlier.len() implies #[trigger] declared_option(
                    earlier[j],
                ) != declared_option(earlier[i]) by {
                    assert(declared_option(lines[j]) != declared_option(lines[i]));
                }
            }
        }
    }
}

/// A handshake on a handler that owns the output stream and has no
/// operation under way: the opening command is written, then lines are
/// read up to the first one that completes the handshake, and the handshake
/// yields what those lines declared. Malformed lines among them change
/// nothing. The handler is then free for the next operation, and the
/// handshake counts as started.
pub proof fn handshake_yields_what_was_declared(handler: HandlerView, lines: Seq<DecodedView>)
    requires
        handler.pending == Pending::Idle,
        handler.listener_stream,
        lines.len() > 0,
        completes_handshake(lines.last()),
        forall|i: int|
            0 <= i < lines.len() - 1 ==> !completes_handshake(#[trigger] lines[i]) && !is_fatal(
                lines[i],
            ),
    ensures
        ({
            let (greeting, opening) = handler.begin(Request::GetInfo);
            let (reading, first) = greeting.resume(OutcomeView::Written(Ok(())));
            let (done, steps) = reading.feed(read_outcomes(lines));
            let info = collected(EngineInfoView::empty(), lines.drop_last());
            &&& opening == ProgressView::Perform(EffectView::Write(GuiCommandView::Usi))
            &&& first == ProgressView::Perform(EffectView::Read)
            &&& steps.len() == lines.len()
            &&& forall|i: int|
                0 <= i < lines.len() - 1 ==> #[trigger] steps[i] == ProgressView::Perform(
                    EffectView::Read,
                )
            &&& steps.last() == ProgressView::Info(info)
            &&& info == collected(
                EngineInfoView::empty(),
                lines.drop_last().filter(|line: DecodedView| !is_malformed(line)),
            )
            &&& info.name == last_name(lines.drop_last())
            &&& forall|name: Seq<char>|
                info.options.contains_key(name) <==> exists|i: int|
                    0 <= i < lines.len() - 1 && #[trigger] declared_option(lines[i]) == Some(name)
            &&& forall|i: int|
                0 <= i < lines.len() - 1 && (#[trigger] declared_option(lines[i])) is Some
                    && (forall|j: int|
                    i < j < lines.len() - 1 ==> #[trigger] declared_option(lines[j])
                        != declared_option(lines[i])) ==> info.options[declared_option(
                    lines[i],
                )->Some_0] == declared_default(lines[i])
            &&& done == HandlerView { handshake_started: true, ..handler }.settled()
        }),
{
    let (greeting, opening) = handler.begin(Request::GetInfo);
    let (reading, first) = greeting.resume(OutcomeView::Written(Ok(())));
    let outcomes = read_outcomes(lines);
    let earlier = lines.drop_last();
    assert(outcomes.drop_last() =~= read_outcomes(earlier));
    assert forall|i: int| 0 <= i < earlier.len() implies !completes_handshake(
        #[trigger] earlier[i],
    ) && !is_fatal(earlier[i]) by {
        assert(earlier[i] == lines[i]);
    }
    handshake_reads_on(reading, earlier);
    malformed_lines_do_not_count(EngineInfoView::empty(), earlier);
    collected_is_last_declared(earlier);
    let info = collected(EngineInfoView::empty(), earlier);
    assert forall|name: Seq<char>| info.options.contains_key(name) <==> exists|i: int|
        0 <= i < lines.len() - 1 && #[trigger] declared_option(lines[i]) == Some(name) by {
        if info.options.contains_key(name) {
            let i = choose|i: int|
                0 <= i < earlier.len() && #[trigger] declared_option(earlier[i]) == Some(name);
            assert(declared_option(lines[i]) == Some(name));
        }
        if exists|i: int|
            0 <= i < lines.len() - 1 && #[trigger] declared_option(lines[i]) == Some(name) {
            let i = choose|i: int|
                0 <= i < lines.len() - 1 && #[trigger] declared_option(lines[i]) == Some(name);
            assert(declared_option(earlier[i]) == Some(name));
        }
    }
    assert forall|i: int|
        0 <= i < lines.len() - 1 && (#[trigger] declared_option(lines[i])) is Some && (forall|
            j: int,
        |
            i < j < lines.len() - 1 ==> #[trigger] declared_option(lines[j]) != declared_option(
                lines[i],
            )) implies info.options[declared_option(lines[i])->Some_0] == declared_default(
        lines[i],
    ) by {
        assert forall|j: int| i < j < earlier.len() implies #[trigger] declared_option(
            earlier[j],
        ) != declared_option(earlier[i]) by {
            assert(declared_option(lines[j]) != declared_option(lines[i]));
        }
    }
}

/// While waiting for readiness, lines that are neither the
/// acknowledgement nor a failure for good are discarded: each is followed
/// by another read and the handler stays as it is.
pub proof fn readiness_reads_on(handler: HandlerView, lines: Seq<DecodedView>)
    requires
        handler.pending == Pending::Waiting,
        forall|i: int|
            0 <= i < lines.len() ==> !is_fatal(#[trigger] lines[i]) && !acknowledges_readiness(
                lines[i],
            ),
    ensures
        handler.feed(read_outcomes(lines)) == (
            handler,
            Seq::new(lines.len(), |i: int| ProgressView::Perform(EffectView::Read)),
        ),
    decreases lines.len(),
{
    let outcomes = read_outcomes(lines);
    if lines.len() == 0 {
        assert(handler.feed(outcomes).1 =~= Seq::new(
            lines.len(),
            |i: int| ProgressView::Perform(EffectView::Read),
        ));
    } else {
        let earlier = lines.drop_last();
        assert(outcomes.drop_last() =~= read_outcomes(earlier));
        readiness_reads_on(handler, earlier);
        let line = lines[lines.len() - 1];
        assert(!acknowledges_readiness(line) && !is_fatal(line));
        assert(handler.feed(outcomes).1 =~= Seq::new(
            lines.len(),
            |i: int| ProgressView::Perform(EffectView::Read),
        ));
    }
}

/// A readiness query on a handler that owns the output stream and has no
/// operation under way: the query is written, then lines are read and
/// discarded up to the first acknowledgement, which ends the query with
/// success. Malformed lines among them change nothing. The handler is then
/// as it was before.
pub proof fn readiness_query_ends_at_the_acknowledgement(
    handler: HandlerView,
    lines: Seq<DecodedView>,
)
    requires
        handler.pending == Pending::Idle,
        handler.listener_stream,
        lines.len() > 0,
        acknowledges_readiness(lines.last()),
        forall|i: int|
            0 <= i < lines.len() - 1 ==> !acknowledges_readiness(#[trigger] lines[i])
                && !is_fatal(lines[i]),
    ensures
        ({
            let (asking, opening) = handler.begin(Request::Prepare);
            let (waiting, first) = asking.resume(OutcomeView::Written(Ok(())));
            let (done, steps) = waiting.feed(read_outcomes(lines));
            &&& opening == ProgressView::Perform(EffectView::Write(GuiCommandView::IsReady))
            &&& first == ProgressView::Perform(EffectView::Read)
            &&& steps.len() == lines.len()
            &&& forall|i: int|
                0 <= i < lines.len() - 1 ==> #[trigger] steps[i] == ProgressView::Perform(
                    EffectView::Read,
                )
            &&& steps.last() == ProgressView::Done
            &&& done == handler.settled()
        }),
{
    let (asking, opening) = handler.begin(Request::Prepare);
    let (waiting, first) = asking.resume(OutcomeView::Written(Ok(())));
    let outcomes = read_outcomes(lines);
    let earlier = lines.drop_last();
    assert(outcomes.drop_last() =~= read_outcomes(earlier));
    assert forall|i: int| 0 <= i < earlier.len() implies !is_fatal(#[trigger] earlier[i])
        && !acknowledges_readiness(earlier[i]) by {
        assert(earlier[i] == lines[i]);
    }
    readiness_reads_on(waiting, earlier);
}

impl ListenerState {
    /// The state of a listening loop after a run of events, and the step
    /// that followed each.
    pub open spec fn run(self, events: Seq<ListenEventView>) -> (
        ListenerState,
        Seq<ListenStepView>,
    )
        decreases events.len(),
    {
        if events.len() == 0 {
            (self, Seq::empty())
        } else {
            let (before, steps) = self.run(events.drop_last());
            let (after, step) = before.next(events.last());
            (after, steps.push(step))
        }
    }
}

/// The events of a listening loop that reads `lines` and whose hook never
/// fails: each line is read, and after each decoded line the hook comes
/// back.
pub open spec fn listening_events(lines: Seq<DecodedView>) -> Seq<ListenEventView>
    decreases lines.len(),
{
    if lines.len() == 0 {
        Seq::empty()
    } else {
        let earlier = listening_events(lines.drop_last());
        match lines.last() {
            Ok(_) => earlier.push(ListenEventView::Decoded(lines.last())).push(
                ListenEventView::Hooked(Ok(())),
            ),
            Err(_) => earlier.push(ListenEventView::Decoded(lines.last())),
        }
    }
}

/// The steps of a listening loop that passes every decoded line of
/// `lines` to the hook and goes on reading after every line.
pub open spec fn listening_steps(lines: Seq<DecodedView>) -> Seq<ListenStepView>
    decreases lines.len(),
{
    if lines.len() == 0 {
        Seq::empty()
    } else {
        let earlier = listening_steps(lines.drop_last());
        match lines.last() {
            Ok(output) => earlier.push(ListenStepView::Invoke(output)).push(ListenStepView::Read),
            Err(_) => earlier.push(ListenStepView::Read),
        }
    }
}

/// A listening loop passes every decoded line to the hook, once, in the
/// order of the lines, and skips every malformed line; as long as no read
/// fails for good and the hook does not fail, it goes on reading.
pub proof fn listener_passes_every_output_on(lines: Seq<DecodedView>)
    requires
        forall|i: int| 0 <= i < lines.len() ==> !is_fatal(#[trigger] lines[i]),
    ensures
        ListenerState::Reading.run(listening_events(lines)) == (
            ListenerState::Reading,
            listening_steps(lines),
        ),
    decreases lines.len(),
{
    if lines.len() > 0 {
        let earlier = lines.drop_last();
        listener_passes_every_output_on(earlier);
        let line = lines[lines.len() - 1];
        assert(!is_fatal(line));
        let events = listening_events(lines);
        let read = listening_events(earlier).push(ListenEventView::Decoded(line));
        assert(read.drop_last() =~= listening_events(earlier));
        assert(ListenerState::Reading.run(read) == (
            ListenerState::Reading.run(listening_events(earlier)).0.next(read.last()).0,
            listening_steps(earlier).push(
                ListenerState::Reading.run(listening_events(earlier)).0.next(read.last()).1,
            ),
        ));
        if line is Ok {
            assert(events.drop_last() =~= read);
        }
    }
}

} // verus!
