//! The writer: the single consumer of the event channel. It dispatches each
//! received event to its handler and, once the channel is closed, finalises
//! the handler and acknowledges the shutdown exactly once.
//!
//! The host runs the receive loop; the writer decides, for each thing the
//! loop observes, what happens next.
use vstd::prelude::*;
use crate::fanout::{fan_out_effects, finish_all_effects, finished_all, handled_all, MultiHandler};
use crate::handler::{views, Effect, EffectView, Handler};
use crate::message::{Message, MessageView};

verus! {

/// Where the writer stands. `Running` until the channel closes; then, within
/// that one step, it finalises its handlers, acknowledges, and is
/// `Terminated` for good.
#[derive(Clone, Copy, Debug, PartialEq, Eq, Structural)]
pub enum WriterState {
    Running,
    Terminated,
}

/// What the receive loop observed: `Some(m)` for a received event, `None`
/// once the channel is closed and drained.
pub open spec fn input_view(incoming: Option<Message>) -> Option<MessageView> {
    match incoming {
        Some(m) => Some(m@),
        None => None,
    }
}

/// The state after observing `input`.
pub open spec fn next_state(state: WriterState, input: Option<MessageView>) -> WriterState {
    match (state, input) {
        (WriterState::Running, None) => WriterState::Terminated,
        _ => state,
    }
}

/// The handlers after observing `input`.
pub open spec fn next_handlers(
    state: WriterState,
    hs: Seq<Handler>,
    input: Option<MessageView>,
) -> Seq<Handler> {
    match (state, input) {
        (WriterState::Running, Some(m)) => handled_all(hs, m),
        (WriterState::Running, None) => finished_all(hs),
        (WriterState::Terminated, _) => hs,
    }
}

/// What observing `input` asks the host to carry out.
pub open spec fn step_effects(
    state: WriterState,
    hs: Seq<Handler>,
    input: Option<MessageView>,
) -> Seq<EffectView> {
    match (state, input) {
        (WriterState::Running, Some(m)) => fan_out_effects(hs, m),
        (WriterState::Running, None) => finish_all_effects(hs).push(EffectView::Acknowledge),
        (WriterState::Terminated, _) => seq![],
    }
}

/// State and handlers after observing each of `inputs` in turn.
pub open spec fn drive(
    state: WriterState,
    hs: Seq<Handler>,
    inputs: Seq<Option<MessageView>>,
) -> (WriterState, Seq<Handler>)
    decreases inputs.len(),
{
    if inputs.len() == 0 {
        (state, hs)
    } else {
        drive(
            next_state(state, inputs[0]),
            next_handlers(state, hs, inputs[0]),
            inputs.drop_first(),
        )
    }
}

/// The inputs of a session: each event received, then the closed channel.
pub open spec fn session(events: Seq<MessageView>) -> Seq<Option<MessageView>> {
    events.map_values(|m: MessageView| Some(m)).push(None)
}

/// The writer and the handler it drives.
pub struct Writer {
    state: WriterState,
    handler: MultiHandler,
}

impl Writer {
    /// Where the writer stands. Only [`Writer::step`] moves it, and only from
    /// `Running` to `Terminated`.
    pub closed spec fn phase(&self) -> WriterState {
        self.state
    }

    /// The handlers the writer drives, in order.
    pub closed spec fn handlers(&self) -> Seq<Handler> {
        self.handler.handlers@
    }

    /// The combinator that holds the handlers.
    pub fn handler(&self) -> (r: &MultiHandler)
        ensures
            r.handlers@ == self.handlers(),
    {
        &self.handler
    }

    /// A running writer over `handler`.
    pub fn setup(handler: MultiHandler) -> (r: Writer)
        ensures
            r.phase() == WriterState::Running,
            r.handlers() == handler.handlers@,
    {
        Writer { state: WriterState::Running, handler }
    }

    pub fn state(&self) -> (r: WriterState)
        ensures
            r == self.phase(),
    {
        self.state
    }

    pub fn is_running(&self) -> (r: bool)
        ensures
            r == (self.phase() == WriterState::Running),
    {
        self.state == WriterState::Running
    }

    /// Takes one observation of the receive loop: dispatches a received event
    /// to every handler, or, when the channel is closed, finishes every
    /// handler and then acknowledges. A terminated writer does nothing.
    pub fn step(&mut self, incoming: Option<Message>) -> (r: Vec<Effect>)
        ensures
            final(self).phase() == next_state(old(self).phase(), input_view(incoming)),
            final(self).handlers() == next_handlers(
                old(self).phase(),
                old(self).handlers(),
                input_view(incoming),
            ),
            views(r@) == step_effects(
                old(self).phase(),
                old(self).handlers(),
                input_view(incoming),
            ),
    {
        match self.state {
            WriterState::Running => match incoming {
                Some(m) => self.handler.handle(m),
                None => {
                    let mut out = self.handler.finish();
                    let ghost before = out@;
                    out.push(Effect::Acknowledge);
                    self.state = WriterState::Terminated;
                    proof {
                        assert(views(out@) =~= views(before).push(EffectView::Acknowledge));
                    }
                    out
                },
            },
            WriterState::Terminated => {
                let out: Vec<Effect> = Vec::new();
                proof {
                    assert(views(out@) =~= seq![]);
                }
                out
            },
        }
    }
}

/// Over any session, every received event reaches every handler exactly once
/// and in the order received, every handler ends finalised, and the writer
/// ends terminated.
pub proof fn lemma_session_delivers_all(hs: Seq<Handler>, events: Seq<MessageView>)
    ensures
        drive(WriterState::Running, hs, session(events)).0 == WriterState::Terminated,
        drive(WriterState::Running, hs, session(events)).1.len() == hs.len(),
        forall|i: int|
            0 <= i < hs.len() ==> {
                &&& (#[trigger] drive(WriterState::Running, hs, session(events)).1[i]).seen()
                    == hs[i].seen() + events
                &&& drive(WriterState::Running, hs, session(events)).1[i].finished()
            },
    decreases events.len(),
{
    let inputs = session(events);
    if events.len() == 0 {
        assert(inputs.drop_first() =~= Seq::<Option<MessageView>>::empty());
        assert(inputs.len() == 1);
        assert(inputs[0] == None::<MessageView>);
        assert(drive(WriterState::Terminated, finished_all(hs), inputs.drop_first()) == (
        WriterState::Terminated, finished_all(hs)));
        let out = drive(WriterState::Running, hs, inputs);
        assert(out == (WriterState::Terminated, finished_all(hs)));
        assert forall|i: int| 0 <= i < hs.len() implies out.1[i].seen() == hs[i].seen()
            + events by {
            assert(hs[i].seen() + events =~= hs[i].seen());
        }
    } else {
        let m = events[0];
        let rest = events.drop_first();
        let hs2 = handled_all(hs, m);
        assert(inputs[0] == Some(m));
        assert(inputs.drop_first() =~= session(rest));
        lemma_session_delivers_all(hs2, rest);
        let out = drive(WriterState::Running, hs, inputs);
        assert(out == drive(WriterState::Running, hs2, session(rest)));
        assert forall|i: int| 0 <= i < hs.len() implies out.1[i].seen() == hs[i].seen()
            + events && out.1[i].finished() by {
            assert(hs2[i].seen() == hs[i].seen().push(m));
            assert(hs[i].seen().push(m) + rest =~= hs[i].seen() + events);
            assert(out.1[i] == drive(WriterState::Running, hs2, session(rest)).1[i]);
        }
    }
}

/// No handler asks for the acknowledgement itself.
proof fn lemma_handlers_never_acknowledge(hs: Seq<Handler>, m: MessageView)
    ensures
        !fan_out_effects(hs, m).contains(EffectView::Acknowledge),
        !finish_all_effects(hs).contains(EffectView::Acknowledge),
    decreases hs.len(),
{
    if hs.len() > 0 {
        lemma_handlers_never_acknowledge(hs.drop_last(), m);
        let h = hs.last();
        let a = fan_out_effects(hs.drop_last(), m);
        let b = h.handle_effects(m);
        assert(!b.contains(EffectView::Acknowledge));
        assert forall|j: int| 0 <= j < (a + b).len() implies (a + b)[j]
            != EffectView::Acknowledge by {
            if j >= a.len() {
                assert((a + b)[j] == b[j - a.len()]);
            } else {
                assert((a + b)[j] == a[j]);
            }
        }
        let c = finish_all_effects(hs.drop_last());
        let d = h.finish_effects();
        assert(!d.contains(EffectView::Acknowledge));
        assert forall|j: int| 0 <= j < (c + d).len() implies (c + d)[j]
            != EffectView::Acknowledge by {
            if j >= c.len() {
                assert((c + d)[j] == d[j - c.len()]);
            } else {
                assert((c + d)[j] == c[j]);
            }
        }
    }
}

/// When the channel closes, every handler is finalised first, and the
/// acknowledgement is the last effect and the only one of its kind; a
/// dispatched event never acknowledges.
pub proof fn lemma_acknowledge_after_finish(hs: Seq<Handler>, m: MessageView)
    ensures
        forall|i: int|
            0 <= i < hs.len() ==> (#[trigger] next_handlers(
                WriterState::Running,
                hs,
                None,
            )[i]).finished(),
        step_effects(WriterState::Running, hs, None).last() == EffectView::Acknowledge,
        !step_effects(WriterState::Running, hs, None).drop_last().contains(
            EffectView::Acknowledge,
        ),
        !step_effects(WriterState::Running, hs, Some(m)).contains(EffectView::Acknowledge),
{
    lemma_handlers_never_acknowledge(hs, m);
    assert(step_effects(WriterState::Running, hs, None).drop_last() =~= finish_all_effects(hs));
}

/// With two handlers `a` then `b`, each event is handled by `a` before `b`:
/// `a`'s effects come first, then `b`'s.
pub proof fn lemma_fan_out_order(a: Handler, b: Handler, m: MessageView)
    ensures
        fan_out_effects(seq![a, b], m) == a.handle_effects(m) + b.handle_effects(m),
        handled_all(seq![a, b], m) == seq![a.after_handle(m), b.after_handle(m)],
{
    let hs = seq![a, b];
    assert(hs.drop_last() =~= seq![a]);
    assert(seq![a].drop_last() =~= Seq::<Handler>::empty());
    assert(seq![a].last() == a);
    assert(fan_out_effects(Seq::<Handler>::empty(), m) == Seq::<EffectView>::empty());
    assert(fan_out_effects(seq![a], m) =~= a.handle_effects(m));
    assert(handled_all(hs, m) =~= seq![a.after_handle(m), b.after_handle(m)]);
}

/// Once terminated, the writer ignores whatever it is handed: no effect, no
/// change to any handler, and it stays terminated.
pub proof fn lemma_terminated_is_inert(hs: Seq<Handler>, input: Option<MessageView>)
    ensures
        next_state(WriterState::Terminated, input) == WriterState::Terminated,
        next_handlers(WriterState::Terminated, hs, input) == hs,
        step_effects(WriterState::Terminated, hs, input) == Seq::<EffectView>::empty(),
{
    assert(step_effects(WriterState::Terminated, hs, input) =~= Seq::<EffectView>::empty());
}

} // verus!
