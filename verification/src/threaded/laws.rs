//! What holds of every threaded engine, whatever the engine does.

use crate::error::ErrorView;
use crate::process::engine::{EffectView, EngineInfoView, HandlerView, OutcomeView, Pending};
use crate::process::laws::{
    collected, collected_is_last_declared, completes_handshake, is_fatal, last_name,
};
use crate::protocol::{DecodedView, EngineOutputView, GuiCommandView};
use crate::threaded::control::{
    engine_failed, unknown, Stage, ThreadActionView, ThreadEventView, ThreadView,
};
use crate::threaded::{move_result, move_results, FacadeView, SettingView, ThreadCommandView};
use vstd::prelude::*;

verus! {

impl FacadeView {
    /// This facade after a run of orders.
    pub open spec fn enqueue_all(self, commands: Seq<ThreadCommandView>) -> FacadeView
        decreases commands.len(),
    {
        if commands.len() == 0 {
            self
        } else {
            self.enqueue_all(commands.drop_last()).enqueue(commands.last())
        }
    }

    /// This facade after the listener saw a run of outputs.
    pub open spec fn observe_all(self, outputs: Seq<EngineOutputView>) -> FacadeView
        decreases outputs.len(),
    {
        if outputs.len() == 0 {
            self
        } else {
            self.observe_all(outputs.drop_last()).observe(outputs.last())
        }
    }

    /// This facade after the controlling thread asked for an order `count`
    /// times, and what it got each time.
    pub open spec fn takes(self, count: nat) -> (FacadeView, Seq<Option<ThreadCommandView>>)
        decreases count,
    {
        if count == 0 {
            (self, Seq::empty())
        } else {
            let (before, taken) = self.takes((count - 1) as nat);
            let (after, command) = before.next_command();
            (after, taken.push(command))
        }
    }

    /// This facade after `count` polls, and what each poll returned.
    pub open spec fn polls(self, count: nat) -> (FacadeView, Seq<Option<Seq<char>>>)
        decreases count,
    {
        if count == 0 {
            (self, Seq::empty())
        } else {
            let (before, polled) = self.polls((count - 1) as nat);
            let (after, result) = before.poll_move();
            (after, polled.push(result))
        }
    }
}

/// Orders join the queue in the order in which they are given, behind
/// those that wait already; nothing else changes.
pub proof fn orders_queue_up(facade: FacadeView, commands: Seq<ThreadCommandView>)
    ensures
        facade.enqueue_all(commands) == (FacadeView {
            commands: facade.commands + commands,
            ..facade
        }),
    decreases commands.len(),
{
    if commands.len() > 0 {
        orders_queue_up(facade, commands.drop_last());
        assert((facade.commands + commands.drop_last()).push(commands.last()) =~= facade.commands
            + commands);
    }
}

/// The controlling thread gets the orders in the order in which they were
/// given, each once: asking as often as orders wait yields them all, oldest
/// first, and empties the queue. Asking once more yields nothing.
pub proof fn orders_leave_in_order(facade: FacadeView, count: nat)
    requires
        count <= facade.commands.len(),
    ensures
        facade.takes(count) == (
            FacadeView { commands: facade.commands.skip(count as int), ..facade },
            Seq::new(count, |i: int| Some(facade.commands[i])),
        ),
        count == facade.commands.len() ==> facade.takes(count).0.next_command() == (
            facade.takes(count).0,
            None::<ThreadCommandView>,
        ),
    decreases count,
{
    if count == 0 {
        assert(facade.commands.skip(0) =~= facade.commands);
    } else {
        orders_leave_in_order(facade, (count - 1) as nat);
        let before = facade.takes((count - 1) as nat).0;
        assert(before.commands.drop_first() =~= facade.commands.skip(count as int));
    }
}

/// Every output that amounts to a move result adds that result to the
/// queue, once, behind those that wait already, in the order of the
/// outputs; every other output adds nothing.
pub proof fn results_queue_up(facade: FacadeView, outputs: Seq<EngineOutputView>)
    ensures
        facade.observe_all(outputs) == (FacadeView {
            moves: facade.moves + move_results(outputs),
            ..facade
        }),
    decreases outputs.len(),
{
    if outputs.len() > 0 {
        let earlier = outputs.drop_last();
        results_queue_up(facade, earlier);
        match move_result(outputs.last()) {
            Some(result) => {
                assert((facade.moves + move_results(earlier)).push(result) =~= facade.moves
                    + move_results(outputs));
            },
            None => {},
        }
    }
}

/// A poll returns the oldest waiting result and takes it out of the
/// queue: polling as often as results wait yields them all, oldest first,
/// each once, and leaves the queue empty. A poll on an empty queue returns
/// nothing and changes nothing.
pub proof fn results_are_polled_in_order(facade: FacadeView, count: nat)
    requires
        count <= facade.moves.len(),
    ensures
        facade.polls(count) == (
            FacadeView { moves: facade.moves.skip(count as int), ..facade },
            Seq::new(count, |i: int| Some(facade.moves[i])),
        ),
        count == facade.moves.len() ==> facade.polls(count).0.poll_move() == (
            facade.polls(count).0,
            None::<Seq<char>>,
        ),
    decreases count,
{
    if count == 0 {
        assert(facade.moves.skip(0) =~= facade.moves);
    } else {
        results_are_polled_in_order(facade, (count - 1) as nat);
        let before = facade.polls((count - 1) as nat).0;
        assert(before.moves.drop_first() =~= facade.moves.skip(count as int));
    }
}

/// No result is lost and none comes twice: after the listener saw a run
/// of outputs, polling yields exactly the move results those outputs amount
/// to, oldest first, and then nothing.
pub proof fn polls_return_what_was_produced(facade: FacadeView, outputs: Seq<EngineOutputView>)
    requires
        facade.moves.len() == 0,
    ensures
        ({
            let produced = move_results(outputs);
            let (after, polled) = facade.observe_all(outputs).polls(produced.len());
            &&& polled == Seq::new(produced.len(), |i: int| Some(produced[i]))
            &&& after.poll_move() == (after, None::<Seq<char>>)
            &&& after == facade
        }),
{
    let produced = move_results(outputs);
    results_queue_up(facade, outputs);
    let waiting = facade.observe_all(outputs);
    results_are_polled_in_order(waiting, produced.len());
    assert(waiting.moves.skip(produced.len() as int) =~= facade.moves);
}

/// The events of a thread that sends the options that precede the
/// handshake: the process is launched, then the write of each option ends
/// as `written` says.
pub open spec fn option_events(written: Seq<Result<(), ErrorView>>) -> Seq<ThreadEventView> {
    Seq::new(
        written.len() + 1,
        |k: int|
            if k == 0 {
                ThreadEventView::Launched(Ok(()))
            } else {
                ThreadEventView::Engine(OutcomeView::Written(written[k - 1]))
            },
    )
}

/// The actions of a thread that sends `options` and then opens the
/// handshake.
pub open spec fn option_actions(options: Seq<SettingView>) -> Seq<ThreadActionView> {
    Seq::new(
        options.len() + 1,
        |k: int|
            if k < options.len() {
                ThreadActionView::Engine(
                    EffectView::Write(GuiCommandView::SetOption(options[k].0, options[k].1)),
                )
            } else {
                ThreadActionView::Engine(EffectView::Write(GuiCommandView::Usi))
            },
    )
}

proof fn options_are_sent_so_far(
    thread: ThreadView,
    written: Seq<Result<(), ErrorView>>,
    count: int,
)
    requires
        thread.stage == Stage::Launching,
        written.len() == thread.options.len(),
        0 <= count <= written.len(),
    ensures
        thread.run(option_events(written.take(count))).1 == option_actions(thread.options).take(
            count + 1,
        ),
        thread.run(option_events(written.take(count))).0 == if count < written.len() {
            ThreadView {
                stage: Stage::Options,
                handler: HandlerView::fresh().awaiting(Pending::Sending),
                next_option: (count + 1) as nat,
                ..thread
            }
        } else {
            ThreadView {
                stage: Stage::Handshake,
                handler: HandlerView {
                    handshake_started: true,
                    pending: Pending::Greeting,
                    ..HandlerView::fresh()
                },
                next_option: count as nat,
                ..thread
            }
        },
    decreases count,
{
    let events = option_events(written.take(count));
    let actions = option_actions(thread.options).take(count + 1);
    if count == 0 {
        let launched = ThreadView {
            stage: Stage::Options,
            handler: HandlerView::fresh(),
            next_option: 0,
            ..thread
        };
        // The launch is the only event: the first option is due, or the
        // handshake where there is no option.
        assert(thread.run(events.drop_last()) == (thread, Seq::<ThreadActionView>::empty()));
        assert(thread.run(events) == (
            launched.apply_options().0,
            Seq::<ThreadActionView>::empty().push(launched.apply_options().1),
        ));
        assert(thread.run(events).1 =~= actions);
    } else {
        // The last event is the end of a write: the next option is due, or
        // the handshake after the last option.
        options_are_sent_so_far(thread, written, count - 1);
        let earlier = option_events(written.take(count - 1));
        assert(events.drop_last() =~= earlier);
        assert(events.last() == ThreadEventView::Engine(
            OutcomeView::Written(written[count - 1]),
        ));
        let (sending, sent) = thread.run(earlier);
        let (after, action) = sending.step(events.last());
        assert(thread.run(events) == (after, sent.push(action)));
        assert(thread.run(events).1 =~= actions);
    }
}

/// The options that precede the handshake are written in the order of the
/// configuration, each once, whether or not the write before succeeded;
/// then the handshake is opened.
pub proof fn options_precede_the_handshake(
    thread: ThreadView,
    written: Seq<Result<(), ErrorView>>,
)
    requires
        thread.stage == Stage::Launching,
        written.len() == thread.options.len(),
    ensures
        thread.run(option_events(written)).1 == option_actions(thread.options),
        thread.run(option_events(written)).0.stage == Stage::Handshake,
        thread.run(option_events(written)).0.handler == (HandlerView {
            handshake_started: true,
            pending: Pending::Greeting,
            ..HandlerView::fresh()
        }),
{
    options_are_sent_so_far(thread, written, written.len() as int);
    assert(written.take(written.len() as int) =~= written);
    assert(option_actions(thread.options).take(written.len() as int + 1) =~= option_actions(
        thread.options,
    ));
}

/// The events of a thread that reads `lines` one after the other.
pub open spec fn reading_events(lines: Seq<DecodedView>) -> Seq<ThreadEventView> {
    Seq::new(lines.len(), |i: int| ThreadEventView::Engine(OutcomeView::Decoded(lines[i])))
}

/// In the handshake, lines that neither complete it nor fail for good keep
/// the thread reading: each is followed by another read, and what they
/// declare is collected.
pub proof fn thread_reads_the_handshake(thread: ThreadView, lines: Seq<DecodedView>)
    requires
        thread.stage == Stage::Handshake,
        thread.handler.pending == Pending::Handshaking,
        forall|i: int|
            0 <= i < lines.len() ==> !completes_handshake(#[trigger] lines[i]) && !is_fatal(
                lines[i],
            ),
    ensures
        thread.run(reading_events(lines)) == (
            thread.with(
                HandlerView { info: collected(thread.handler.info, lines), ..thread.handler },
            ),
            Seq::new(lines.len(), |i: int| ThreadActionView::Engine(EffectView::Read)),
        ),
    decreases lines.len(),
{
    let events = reading_events(lines);
    if lines.len() > 0 {
        let earlier = lines.drop_last();
        thread_reads_the_handshake(thread, earlier);
        assert(events.drop_last() =~= reading_events(earlier));
        let line = lines[lines.len() - 1];
        assert(!completes_handshake(line) && !is_fatal(line));
    }
    assert(thread.run(events).1 =~= Seq::new(
        lines.len(),
        |i: int| ThreadActionView::Engine(EffectView::Read),
    ));
}

/// The name that the thread reports is the name that the engine declared
/// last in the handshake: once the opening command is written, the thread
/// reads up to the line that completes the handshake and then reports the
/// name declared last before it, the empty name where none was declared.
/// Where reading fails for good before the handshake is complete, the
/// thread reports [`unknown`] instead. Either way it goes on to the
/// readiness query.
pub proof fn declared_name_is_reported(thread: ThreadView, lines: Seq<DecodedView>)
    requires
        thread.stage == Stage::Handshake,
        thread.handler.pending == Pending::Handshaking,
        thread.handler.info == EngineInfoView::empty(),
        lines.len() > 0,
        completes_handshake(lines.last()) || is_fatal(lines.last()),
        forall|i: int|
            0 <= i < lines.len() - 1 ==> !completes_handshake(#[trigger] lines[i]) && !is_fatal(
                lines[i],
            ),
    ensures
        ({
            let (after, actions) = thread.run(reading_events(lines));
            &&& actions.len() == lines.len()
            &&& forall|i: int|
                0 <= i < lines.len() - 1 ==> #[trigger] actions[i] == ThreadActionView::Engine(
                    EffectView::Read,
                )
            &&& actions.last() == ThreadActionView::Report(
                if completes_handshake(lines.last()) {
                    last_name(lines.drop_last())
                } else {
                    unknown()
                },
            )
            &&& after.stage == Stage::Naming
            &&& after.handler == thread.handler.settled()
        }),
{
    let events = reading_events(lines);
    let earlier = lines.drop_last();
    assert forall|i: int| 0 <= i < earlier.len() implies !completes_handshake(
        #[trigger] earlier[i],
    ) && !is_fatal(earlier[i]) by {
        assert(earlier[i] == lines[i]);
    }
    thread_reads_the_handshake(thread, earlier);
    assert(events.drop_last() =~= reading_events(earlier));
    collected_is_last_declared(earlier);
}

/// The events of a thread that carries out `commands` one by one: each
/// order arrives, then the write of its command ends as `written` says.
pub open spec fn serving_events(
    commands: Seq<ThreadCommandView>,
    written: Seq<Result<(), ErrorView>>,
) -> Seq<ThreadEventView> {
    Seq::new(
        2 * commands.len(),
        |k: int|
            if k % 2 == 0 {
                ThreadEventView::Command(commands[k / 2])
            } else {
                ThreadEventView::Engine(OutcomeView::Written(written[k / 2]))
            },
    )
}

/// The actions of a thread that carries out `commands` one by one: the
/// command of each order is written, then the thread waits for the next
/// order.
pub open spec fn serving_actions(commands: Seq<ThreadCommandView>) -> Seq<ThreadActionView> {
    Seq::new(
        2 * commands.len(),
        |k: int|
            if k % 2 == 0 {
                ThreadActionView::Engine(EffectView::Write(commands[k / 2].gui_command()))
            } else {
                ThreadActionView::Receive
            },
    )
}

/// Orders reach the engine's input in the order in which the thread
/// receives them: for each order its command is written, whether or not
/// the write before it succeeded, and nothing else is done in between.
pub proof fn orders_are_written_in_order(
    thread: ThreadView,
    commands: Seq<ThreadCommandView>,
    written: Seq<Result<(), ErrorView>>,
)
    requires
        thread.stage == Stage::Receiving,
        thread.handler.pending == Pending::Idle,
        written.len() == commands.len(),
        forall|i: int| 0 <= i < commands.len() ==> !(#[trigger] commands[i] is Quit),
    ensures
        thread.run(serving_events(commands, written)).1 == serving_actions(commands),
        thread.run(serving_events(commands, written)).0.stage == Stage::Receiving,
        thread.run(serving_events(commands, written)).0.handler.pending == Pending::Idle,
    decreases commands.len(),
{
    let events = serving_events(commands, written);
    if commands.len() == 0 {
        assert(thread.run(events).1 =~= serving_actions(commands));
    } else {
        let earlier = commands.drop_last();
        let before = serving_events(earlier, written.drop_last());
        orders_are_written_in_order(thread, earlier, written.drop_last());
        assert(events.drop_last().drop_last() =~= before);
        // The last two events: the last order arrives and its command is
        // written, then the write ends and the thread waits again.
        let last = commands.len() - 1;
        let order = events.drop_last();
        let (waiting, done) = thread.run(before);
        let (serving, write) = waiting.step(order.last());
        assert(write == ThreadActionView::Engine(
            EffectView::Write(commands[last].gui_command()),
        ));
        assert(thread.run(order) == (serving, done.push(write)));
        let (after, receive) = serving.step(events.last());
        assert(receive == ThreadActionView::Receive);
        assert(thread.run(events) == (after, done.push(write).push(receive)));
        assert(thread.run(events).1 =~= serving_actions(commands));
    }
}

/// Orders given to the facade reach the engine's input in the order in
/// which they were given: the controlling thread takes them from the queue
/// oldest first, each once, and writes the command of each in that order.
pub proof fn orders_given_are_orders_written(
    facade: FacadeView,
    thread: ThreadView,
    commands: Seq<ThreadCommandView>,
    written: Seq<Result<(), ErrorView>>,
)
    requires
        facade.commands.len() == 0,
        thread.stage == Stage::Receiving,
        thread.handler.pending == Pending::Idle,
        written.len() == commands.len(),
        forall|i: int| 0 <= i < commands.len() ==> !(#[trigger] commands[i] is Quit),
    ensures
        ({
            let (after, taken) = facade.enqueue_all(commands).takes(commands.len());
            &&& taken == Seq::new(commands.len(), |i: int| Some(commands[i]))
            &&& after.next_command() == (after, None::<ThreadCommandView>)
            &&& thread.run(serving_events(commands, written)).1 == serving_actions(commands)
        }),
{
    orders_queue_up(facade, commands);
    let waiting = facade.enqueue_all(commands);
    orders_leave_in_order(waiting, commands.len());
    orders_are_written_in_order(thread, commands, written);
}

/// The order to quit is the last one carried out: its command is written
/// and, whether or not that write succeeded, the thread starts ending the
/// engine instead of waiting for another order.
pub proof fn quit_ends_the_service(thread: ThreadView, written: Result<(), ErrorView>)
    requires
        thread.stage == Stage::Receiving,
        thread.handler.pending == Pending::Idle,
    ensures
        ({
            let (quitting, first) = thread.step(ThreadEventView::Command(ThreadCommandView::Quit));
            let (ending, second) = quitting.step(
                ThreadEventView::Engine(OutcomeView::Written(written)),
            );
            &&& first == ThreadActionView::Engine(EffectView::Write(GuiCommandView::Quit))
            &&& second == ThreadActionView::Engine(EffectView::Write(GuiCommandView::Quit))
            &&& ending.stage == Stage::Teardown
            &&& ending.handler.pending == Pending::Quitting
        }),
{
}

/// A thread that is ending the engine terminates the process only after
/// the quit command was written; where that write fails it ends at once.
/// Either way the thread ends, and from then on does nothing.
pub proof fn teardown_ends_the_thread(
    thread: ThreadView,
    written: Result<(), ErrorView>,
    terminated: Result<(), ErrorView>,
)
    requires
        thread.stage == Stage::Teardown,
        thread.handler.pending == Pending::Quitting,
    ensures
        ({
            let (next, first) = thread.step(ThreadEventView::Engine(OutcomeView::Written(written)));
            match written {
                Ok(()) => {
                    let (last, second) = next.step(
                        ThreadEventView::Engine(OutcomeView::Terminated(terminated)),
                    );
                    &&& first == ThreadActionView::Engine(EffectView::Terminate)
                    &&& second == ThreadActionView::Exit
                    &&& last.stage == Stage::Exited
                },
                Err(_) => first == ThreadActionView::Exit && next.stage == Stage::Exited,
            }
        }),
{
}

/// A run of events in two parts is the run of the first part followed by
/// the run of the second.
pub proof fn run_in_two_parts(
    thread: ThreadView,
    first: Seq<ThreadEventView>,
    second: Seq<ThreadEventView>,
)
    ensures
        thread.run(first + second) == (
            thread.run(first).0.run(second).0,
            thread.run(first).1 + thread.run(first).0.run(second).1,
        ),
    decreases second.len(),
{
    let middle = thread.run(first).0;
    if second.len() == 0 {
        assert(first + second =~= first);
        assert(thread.run(first).1 + middle.run(second).1 =~= thread.run(first).1);
    } else {
        run_in_two_parts(thread, first, second.drop_last());
        assert((first + second).drop_last() =~= first + second.drop_last());
        assert(thread.run(first).1 + middle.run(second).1 =~= (thread.run(first).1 + middle.run(
            second.drop_last(),
        ).1).push(middle.run(second.drop_last()).0.step(second.last()).1));
    }
}

/// A thread that has ended, or is about to end because the engine could
/// not be launched, never touches a process: whatever it is told, all it
/// does is end.
pub proof fn ended_thread_only_exits(thread: ThreadView, events: Seq<ThreadEventView>)
    requires
        thread.stage == Stage::Failing || thread.stage == Stage::Exited,
    ensures
        events.len() > 0 ==> thread.run(events).0.stage == Stage::Exited,
        thread.run(events).1 == Seq::new(events.len(), |i: int| ThreadActionView::Exit),
    decreases events.len(),
{
    if events.len() > 0 {
        ended_thread_only_exits(thread, events.drop_last());
    }
    assert(thread.run(events).1 =~= Seq::new(events.len(), |i: int| ThreadActionView::Exit));
}

/// Where the engine cannot be launched, the thread reports
/// [`engine_failed`] as the engine's name and ends. Nothing is ever written
/// to a process: whatever the thread is told afterwards, all it does is end.
pub proof fn failed_launch_is_reported(
    thread: ThreadView,
    failure: ErrorView,
    events: Seq<ThreadEventView>,
)
    requires
        thread.stage == Stage::Created,
    ensures
        ({
            let start = seq![
                ThreadEventView::Ready,
                ThreadEventView::Launched(Err::<(), ErrorView>(failure)),
            ];
            let actions = thread.run(start + events).1;
            &&& actions.len() == 2 + events.len()
            &&& actions[0] == ThreadActionView::Launch {
                path: thread.path,
                working_dir: thread.working_dir,
            }
            &&& actions[1] == ThreadActionView::Report(engine_failed())
            &&& forall|i: int|
                2 <= i < actions.len() ==> #[trigger] actions[i] == ThreadActionView::Exit
        }),
{
    let start = seq![
        ThreadEventView::Ready,
        ThreadEventView::Launched(Err::<(), ErrorView>(failure)),
    ];
    run_in_two_parts(thread, start, events);
    // The first two events take the thread to the report of the failure.
    reveal_with_fuel(ThreadView::run, 3);
    let failing = thread.run(start).0;
    assert(failing.stage == Stage::Failing);
    ended_thread_only_exits(failing, events);
}

} // verus!
