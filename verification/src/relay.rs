//! The multiplexer: two output streams and the exit of the process, merged
//! into one stream of lines.
//!
//! The driver waits for whichever source is ready first and reports it as an
//! [`Event`]; the relay answers with what to do. A line is sent on at once,
//! terminated by a newline. The exit of the process counts only once both
//! streams have reported their end, so that no line still in a pipe is lost.

use vstd::prelude::*;
use vstd::string::StringExecFns;

verus! {

/// One of the two output streams of the process.
#[derive(Clone, Copy, Debug, PartialEq, Eq, Structural)]
pub enum Source {
    Stdout,
    Stderr,
}

/// What one of the three sources reported.
#[derive(Clone, Debug, PartialEq, Eq)]
pub enum Event {
    /// A stream produced a line, given without its terminator.
    Line(Source, String),
    /// A stream reported its end.
    End(Source),
    /// The process has exited.
    Exited,
}

/// An event as a mathematical value.
pub enum EventView {
    Line(Source, Seq<char>),
    End(Source),
    Exited,
}

impl View for Event {
    type V = EventView;

    open spec fn view(&self) -> EventView {
        match self {
            Event::Line(source, line) => EventView::Line(*source, line@),
            Event::End(source) => EventView::End(*source),
            Event::Exited => EventView::Exited,
        }
    }
}

/// What the driver does after an event.
#[derive(Clone, Debug, PartialEq, Eq)]
pub enum Action {
    /// Write this text to the connection and flush, then wait again.
    Send(String),
    /// Nothing to write: wait again.
    Wait,
    /// The process has exited and both streams are drained: stop.
    Finish,
}

/// An action as a mathematical value.
pub enum ActionView {
    Send(Seq<char>),
    Wait,
    Finish,
}

impl View for Action {
    type V = ActionView;

    open spec fn view(&self) -> ActionView {
        match self {
            Action::Send(text) => ActionView::Send(text@),
            Action::Wait => ActionView::Wait,
            Action::Finish => ActionView::Finish,
        }
    }
}

/// A line as it goes out: followed by a newline.
pub open spec fn chunk_of(line: Seq<char>) -> Seq<char> {
    line + seq!['\n']
}

/// The state of the multiplexer.
#[derive(Clone, Copy, Debug, PartialEq, Eq, Structural)]
pub enum Relay {
    /// Output is being relayed; each flag says whether that stream has yet to
    /// report its end.
    Draining { stdout_open: bool, stderr_open: bool },
    /// The exit has been taken: nothing more is relayed.
    Finished,
}

impl Relay {
    /// The state in which a relay starts: both streams open.
    pub open spec fn initial() -> Relay {
        Relay::Draining { stdout_open: true, stderr_open: true }
    }

    /// Whether `source` has yet to report its end.
    pub open spec fn is_open(self, source: Source) -> bool {
        match self {
            Relay::Draining { stdout_open, stderr_open } => match source {
                Source::Stdout => stdout_open,
                Source::Stderr => stderr_open,
            },
            Relay::Finished => false,
        }
    }

    /// Whether the exit of the process may be taken: both streams have ended
    /// and the exit has not been taken yet.
    pub open spec fn armed(self) -> bool {
        self == (Relay::Draining { stdout_open: false, stderr_open: false })
    }

    /// The state after `source` has reported its end.
    pub open spec fn closed(self, source: Source) -> Relay {
        match self {
            Relay::Draining { stdout_open, stderr_open } => match source {
                Source::Stdout => Relay::Draining { stdout_open: false, stderr_open },
                Source::Stderr => Relay::Draining { stdout_open, stderr_open: false },
            },
            Relay::Finished => Relay::Finished,
        }
    }

    /// The state and the action after one event. A line is sent on as long as
    /// the exit has not been taken. An exit that comes while a stream is
    /// still open is passed over.
    pub open spec fn step(self, event: EventView) -> (Relay, ActionView) {
        if self is Finished {
            (Relay::Finished, ActionView::Finish)
        } else {
            match event {
                EventView::Line(_, line) => (self, ActionView::Send(chunk_of(line))),
                EventView::End(source) => (self.closed(source), ActionView::Wait),
                EventView::Exited => if self.armed() {
                    (Relay::Finished, ActionView::Finish)
                } else {
                    (self, ActionView::Wait)
                },
            }
        }
    }

    /// A relay with both streams open.
    pub fn new() -> (relay: Relay)
        ensures
            relay == Relay::initial(),
    {
        Relay::Draining { stdout_open: true, stderr_open: true }
    }

    /// Whether the driver should wait on `source`.
    pub fn polls(&self, source: Source) -> (open: bool)
        ensures
            open == self.is_open(source),
    {
        match self {
            Relay::Draining { stdout_open, stderr_open } => match source {
                Source::Stdout => *stdout_open,
                Source::Stderr => *stderr_open,
            },
            Relay::Finished => false,
        }
    }

    /// Whether the driver should wait on the exit of the process.
    pub fn exit_armed(&self) -> (armed: bool)
        ensures
            armed == self.armed(),
    {
        match self {
            Relay::Draining { stdout_open, stderr_open } => !*stdout_open && !*stderr_open,
            Relay::Finished => false,
        }
    }

    /// Whether the exit has been taken.
    pub fn is_finished(&self) -> (finished: bool)
        ensures
            finished == (*self is Finished),
    {
        match self {
            Relay::Draining { .. } => false,
            Relay::Finished => true,
        }
    }

    /// Takes one event and says what to do.
    pub fn handle(&mut self, event: Event) -> (action: Action)
        ensures
            (*final(self), action@) == old(self).step(event@),
    {
        match *self {
            Relay::Finished => Action::Finish,
            Relay::Draining { stdout_open, stderr_open } => match event {
                Event::Line(_, line) => Action::Send(chunk(line)),
                Event::End(Source::Stdout) => {
                    *self = Relay::Draining { stdout_open: false, stderr_open };
                    Action::Wait
                },
                Event::End(Source::Stderr) => {
                    *self = Relay::Draining { stdout_open, stderr_open: false };
                    Action::Wait
                },
                Event::Exited => if !stdout_open && !stderr_open {
                    *self = Relay::Finished;
                    Action::Finish
                } else {
                    Action::Wait
                },
            },
        }
    }
}

/// Terminates a line for sending.
pub fn chunk(line: String) -> (text: String)
    ensures
        text@ == chunk_of(line@),
{
    proof {
        reveal_strlit("\n");
        assert("\n"@ =~= seq!['\n']);
    }
    line.concat("\n")
}

} // verus!
