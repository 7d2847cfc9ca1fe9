//! What the relay does over a whole sequence of events, and what holds of
//! every such sequence.

use vstd::prelude::*;
use crate::relay::{chunk_of, ActionView, EventView, Relay, Source};

verus! {

impl Relay {
    /// The state after the events, taken in order.
    pub open spec fn run(self, events: Seq<EventView>) -> Relay
        decreases events.len(),
    {
        if events.len() == 0 {
            self
        } else {
            self.run(events.drop_last()).step(events.last()).0
        }
    }

    /// The texts sent in answer to the events, in the order of sending.
    pub open spec fn transcript(self, events: Seq<EventView>) -> Seq<Seq<char>>
        decreases events.len(),
    {
        if events.len() == 0 {
            Seq::empty()
        } else {
            let before = self.transcript(events.drop_last());
            match self.run(events.drop_last()).step(events.last()).1 {
                ActionView::Send(text) => before.push(text),
                _ => before,
            }
        }
    }

    /// The lines that `source` produced before the exit was taken, in the
    /// order of their arrival.
    pub open spec fn lines_from(self, events: Seq<EventView>, source: Source) -> Seq<Seq<char>>
        decreases events.len(),
    {
        if events.len() == 0 {
            Seq::empty()
        } else {
            let before = self.lines_from(events.drop_last(), source);
            if self.run(events.drop_last()) is Finished {
                before
            } else {
                match events.last() {
                    EventView::Line(from, line) => if from == source {
                        before.push(line)
                    } else {
                        before
                    },
                    _ => before,
                }
            }
        }
    }
}

/// Whether `out` holds the lines of `a` and of `b`, each terminated, with the
/// lines of `a` in their order and the lines of `b` in theirs.
pub open spec fn interleaves(out: Seq<Seq<char>>, a: Seq<Seq<char>>, b: Seq<Seq<char>>) -> bool
    decreases out.len(),
{
    if out.len() == 0 {
        a.len() == 0 && b.len() == 0
    } else {
        ||| a.len() > 0 && out.last() == chunk_of(a.last()) && interleaves(
            out.drop_last(),
            a.drop_last(),
            b,
        )
        ||| b.len() > 0 && out.last() == chunk_of(b.last()) && interleaves(
            out.drop_last(),
            a,
            b.drop_last(),
        )
    }
}

/// Whether `source` reported its end among the first `k` events.
pub open spec fn ended_before(events: Seq<EventView>, source: Source, k: int) -> bool {
    exists|i: int| 0 <= i < k && i < events.len() && #[trigger] events[i] == EventView::End(source)
}

/// Whether the exit at position `k` came after the end of both streams.
pub open spec fn gated_exit_at(events: Seq<EventView>, k: int) -> bool {
    &&& 0 <= k < events.len()
    &&& events[k] == EventView::Exited
    &&& ended_before(events, Source::Stdout, k)
    &&& ended_before(events, Source::Stderr, k)
}

/// For every sequence of events, what was sent is an interleaving of the
/// lines of standard output and the lines of standard error: every line that
/// came before the exit was taken is sent once, terminated, and the lines of
/// each stream keep their order.
pub proof fn lemma_transcript_interleaves(relay: Relay, events: Seq<EventView>)
    ensures
        interleaves(
            relay.transcript(events),
            relay.lines_from(events, Source::Stdout),
            relay.lines_from(events, Source::Stderr),
        ),
    decreases events.len(),
{
    if events.len() > 0 {
        let earlier = events.drop_last();
        lemma_transcript_interleaves(relay, earlier);
        let out = relay.transcript(events);
        let a = relay.lines_from(events, Source::Stdout);
        let b = relay.lines_from(events, Source::Stderr);
        if !(relay.run(earlier) is Finished) {
            match events.last() {
                EventView::Line(from, line) => {
                    assert(out.drop_last() =~= relay.transcript(earlier));
                    match from {
                        Source::Stdout => {
                            assert(a.drop_last() =~= relay.lines_from(earlier, Source::Stdout));
                        },
                        Source::Stderr => {
                            assert(b.drop_last() =~= relay.lines_from(earlier, Source::Stderr));
                        },
                    }
                },
                _ => {},
            }
        }
    }
}

/// An interleaving holds as many texts as the two streams hold lines.
pub proof fn lemma_interleaving_length(out: Seq<Seq<char>>, a: Seq<Seq<char>>, b: Seq<Seq<char>>)
    requires
        interleaves(out, a, b),
    ensures
        out.len() == a.len() + b.len(),
    decreases out.len(),
{
    if out.len() > 0 {
        if a.len() > 0 && out.last() == chunk_of(a.last()) && interleaves(
            out.drop_last(),
            a.drop_last(),
            b,
        ) {
            lemma_interleaving_length(out.drop_last(), a.drop_last(), b);
        } else {
            lemma_interleaving_length(out.drop_last(), a, b.drop_last());
        }
    }
}

/// What a closed stream and a taken exit say of the events so far.
proof fn lemma_gate_invariant(events: Seq<EventView>)
    ensures
        !Relay::initial().run(events).is_open(Source::Stdout) ==> ended_before(
            events,
            Source::Stdout,
            events.len() as int,
        ),
        !Relay::initial().run(events).is_open(Source::Stderr) ==> ended_before(
            events,
            Source::Stderr,
            events.len() as int,
        ),
        Relay::initial().run(events) is Finished ==> exists|k: int| gated_exit_at(events, k),
    decreases events.len(),
{
    if events.len() > 0 {
        let earlier = events.drop_last();
        let last = events.len() - 1;
        lemma_gate_invariant(earlier);
        let before = Relay::initial().run(earlier);
        let after = Relay::initial().run(events);
        assert forall|source: Source|
            ended_before(earlier, source, earlier.len() as int) implies ended_before(
            events,
            source,
            last,
        ) by {
            let i = choose|i: int|
                0 <= i < earlier.len() && #[trigger] earlier[i] == EventView::End(source);
            assert(events[i] == EventView::End(source));
        }
        assert forall|source: Source| ended_before(events, source, last) implies ended_before(
            events,
            source,
            events.len() as int,
        ) by {
            let i = choose|i: int|
                0 <= i < last && i < events.len() && #[trigger] events[i] == EventView::End(source);
            assert(events[i] == EventView::End(source));
        }
        assert forall|source: Source|
            before.is_open(source) && !after.is_open(source) && !(after is Finished)
            implies ended_before(events, source, events.len() as int) by {
            assert(events[last] == EventView::End(source));
        }
        if after is Finished {
            if before is Finished {
                let k = choose|k: int| gated_exit_at(earlier, k);
                assert forall|source: Source| ended_before(earlier, source, k) implies ended_before(
                    events,
                    source,
                    k,
                ) by {
                    let i = choose|i: int|
                        0 <= i < k && i < earlier.len() && #[trigger] earlier[i] == EventView::End(
                            source,
                        );
                    assert(events[i] == EventView::End(source));
                }
                assert(events[k] == earlier[k]);
                assert(gated_exit_at(events, k));
            } else {
                assert(before.armed());
                assert(events[last] == EventView::Exited);
                assert(gated_exit_at(events, last));
            }
        }
    }
}

/// The exit of the process is never taken before both streams have reported
/// their end: in every sequence of events that finishes a relay, an exit
/// stands after an end of standard output and an end of standard error.
pub proof fn lemma_exit_is_gated(events: Seq<EventView>)
    requires
        Relay::initial().run(events) is Finished,
    ensures
        exists|k: int| gated_exit_at(events, k),
{
    lemma_gate_invariant(events);
}

/// Once the exit is taken nothing more is sent, whatever is reported.
pub proof fn lemma_nothing_after_finish(relay: Relay, events: Seq<EventView>, more: Seq<EventView>)
    requires
        relay.run(events) is Finished,
    ensures
        relay.run(events + more) is Finished,
        relay.transcript(events + more) == relay.transcript(events),
    decreases more.len(),
{
    if more.len() == 0 {
        assert(events + more =~= events);
    } else {
        lemma_nothing_after_finish(relay, events, more.drop_last());
        assert((events + more).drop_last() =~= events + more.drop_last());
        assert((events + more).last() == more.last());
    }
}

} // verus!
