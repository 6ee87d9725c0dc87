//! The listening loop: what becomes of each line once the engine's output
//! stream has been handed over.

use crate::error::{Error, ErrorView};
use crate::protocol::{decoded_view, Decoded, DecodedView, EngineOutput, EngineOutputView};
use vstd::prelude::*;

verus! {

/// Where a listening loop stands.
#[derive(Clone, Copy, Debug, PartialEq, Eq)]
pub enum ListenerState {
    /// Not started.
    Created,
    /// Waiting for the next line.
    Reading,
    /// Waiting for the hook to come back.
    Invoking,
    /// Ended.
    Stopped,
}

/// What a listening loop is told.
#[derive(Debug)]
pub enum ListenEvent {
    /// The loop starts.
    Started,
    /// The next line was read, with this result.
    Decoded(Decoded),
    /// The hook came back: with nothing, or with the message of its failure.
    Hooked(Result<(), String>),
}

/// Model of a [`ListenEvent`].
pub enum ListenEventView {
    Started,
    Decoded(DecodedView),
    Hooked(Result<(), Seq<char>>),
}

impl View for ListenEvent {
    type V = ListenEventView;

    open spec fn view(&self) -> ListenEventView {
        match self {
            ListenEvent::Started => ListenEventView::Started,
            ListenEvent::Decoded(decoded) => ListenEventView::Decoded(decoded_view(*decoded)),
            ListenEvent::Hooked(result) => ListenEventView::Hooked(
                match result {
                    Ok(()) => Ok(()),
                    Err(message) => Err(message@),
                },
            ),
        }
    }
}

/// What a listening loop does next.
#[derive(Debug)]
pub enum ListenStep {
    /// Read and decode the next line.
    Read,
    /// Call the hook with this output.
    Invoke(EngineOutput),
    /// End the loop; this failure is its outcome.
    Stop(Error),
}

/// Model of a [`ListenStep`].
pub enum ListenStepView {
    Read,
    Invoke(EngineOutputView),
    Stop(ErrorView),
}

impl View for ListenStep {
    type V = ListenStepView;

    open spec fn view(&self) -> ListenStepView {
        match self {
            ListenStep::Read => ListenStepView::Read,
            ListenStep::Invoke(output) => ListenStepView::Invoke(output@),
            ListenStep::Stop(error) => ListenStepView::Stop(error@),
        }
    }
}

impl ListenerState {
    /// The state after an event, and the next step.
    ///
    /// A started loop reads. Every decoded line goes to the hook; a
    /// malformed line is skipped; any other failure to read ends the loop
    /// with that failure. After the hook the loop reads on, unless the
    /// hook failed: then the loop ends with the hook's failure. An event
    /// that does not answer the last step ends the loop as an illegal
    /// operation.
    pub open spec fn next(self, event: ListenEventView) -> (ListenerState, ListenStepView) {
        match (self, event) {
            (ListenerState::Created, ListenEventView::Started) => (
                ListenerState::Reading,
                ListenStepView::Read,
            ),
            (ListenerState::Reading, ListenEventView::Decoded(Ok(output))) => (
                ListenerState::Invoking,
                ListenStepView::Invoke(output),
            ),
            (ListenerState::Reading, ListenEventView::Decoded(Err(ErrorView::IllegalSyntax))) => (
                ListenerState::Reading,
                ListenStepView::Read,
            ),
            (ListenerState::Reading, ListenEventView::Decoded(Err(error))) => (
                ListenerState::Stopped,
                ListenStepView::Stop(error),
            ),
            (ListenerState::Invoking, ListenEventView::Hooked(Ok(()))) => (
                ListenerState::Reading,
                ListenStepView::Read,
            ),
            (ListenerState::Invoking, ListenEventView::Hooked(Err(message))) => (
                ListenerState::Stopped,
                ListenStepView::Stop(ErrorView::HandlerError(message)),
            ),
            _ => (ListenerState::Stopped, ListenStepView::Stop(ErrorView::IllegalOperation)),
        }
    }
}

/// The listening loop of one engine. It stands for the engine's output
/// stream after the hand-over: a handler gives out one, once.
#[derive(Debug)]
pub struct Listener {
    state: ListenerState,
}

impl View for Listener {
    type V = ListenerState;

    closed spec fn view(&self) -> ListenerState {
        self.state
    }
}

impl Listener {
    pub(crate) fn new() -> (listener: Listener)
        ensures
            listener@ == ListenerState::Created,
    {
        Listener { state: ListenerState::Created }
    }

    fn stop(&mut self, error: Error) -> (step: ListenStep)
        ensures
            final(self)@ == ListenerState::Stopped,
            step@ == ListenStepView::Stop(error@),
    {
        self.state = ListenerState::Stopped;
        ListenStep::Stop(error)
    }

    fn read(&mut self) -> (step: ListenStep)
        ensures
            final(self)@ == ListenerState::Reading,
            step@ == ListenStepView::Read,
    {
        self.state = ListenerState::Reading;
        ListenStep::Read
    }

    /// Takes the loop one step further.
    pub fn resume(&mut self, event: ListenEvent) -> (step: ListenStep)
        ensures
            (final(self)@, step@) == old(self)@.next(event@),
    {
        match (self.state, event) {
            (ListenerState::Created, ListenEvent::Started) => self.read(),
            (ListenerState::Reading, ListenEvent::Decoded(decoded)) => match decoded {
                Ok(output) => {
                    self.state = ListenerState::Invoking;
                    ListenStep::Invoke(output)
                },
                Err(error) => {
                    if error.is_syntax() {
                        self.read()
                    } else {
                        self.stop(error)
                    }
                },
            },
            (ListenerState::Invoking, ListenEvent::Hooked(hooked)) => match hooked {
                Ok(()) => self.read(),
                Err(message) => self.stop(Error::HandlerError(message)),
            },
            _ => self.stop(Error::IllegalOperation),
        }
    }
}

} // verus!
