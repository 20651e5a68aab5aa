//! The fan-out combinator: one event stream dispatched to an ordered sequence
//! of handlers.
use vstd::prelude::*;
use crate::handler::{views, Effect, EffectView, Handler};
use crate::message::{Message, MessageView};

verus! {

/// The effects of handing `m` to each of `hs`, in order.
pub open spec fn fan_out_effects(hs: Seq<Handler>, m: MessageView) -> Seq<EffectView>
    decreases hs.len(),
{
    if hs.len() == 0 {
        seq![]
    } else {
        fan_out_effects(hs.drop_last(), m) + hs.last().handle_effects(m)
    }
}

/// The effects of finalising each of `hs`, in order.
pub open spec fn finish_all_effects(hs: Seq<Handler>) -> Seq<EffectView>
    decreases hs.len(),
{
    if hs.len() == 0 {
        seq![]
    } else {
        finish_all_effects(hs.drop_last()) + hs.last().finish_effects()
    }
}

/// Each of `hs` after it handled `m`.
pub open spec fn handled_all(hs: Seq<Handler>, m: MessageView) -> Seq<Handler> {
    hs.map_values(|h: Handler| h.after_handle(m))
}

/// Each of `hs` after it was finalised.
pub open spec fn finished_all(hs: Seq<Handler>) -> Seq<Handler> {
    hs.map_values(|h: Handler| h.after_finish())
}

/// Dispatches each event to every handler, in the order they were added.
pub struct MultiHandler {
    pub handlers: Vec<Handler>,
}

impl MultiHandler {
    /// A combinator with no handlers.
    pub fn new() -> (r: MultiHandler)
        ensures
            r.handlers@ == Seq::<Handler>::empty(),
    {
        MultiHandler { handlers: Vec::new() }
    }

    /// Adds `handler` after those already there.
    pub fn push(self, handler: Handler) -> (r: MultiHandler)
        ensures
            r.handlers@ == self.handlers@.push(handler),
    {
        let mut this = self;
        this.handlers.push(handler);
        this
    }

    pub fn len(&self) -> (r: usize)
        ensures
            r == self.handlers@.len(),
    {
        self.handlers.len()
    }

    /// The handler at `index`.
    pub fn handler(&self, index: usize) -> (r: &Handler)
        requires
            index < self.handlers@.len(),
        ensures
            *r == self.handlers@[index as int],
    {
        &self.handlers[index]
    }

    /// Hands `m` to every handler, in order; each finishes before the next
    /// starts.
    pub fn handle(&mut self, m: Message) -> (r: Vec<Effect>)
        ensures
            final(self).handlers@ == handled_all(old(self).handlers@, m@),
            views(r@) == fan_out_effects(old(self).handlers@, m@),
    {
        let mut rest: Vec<Handler> = Vec::new();
        std::mem::swap(&mut rest, &mut self.handlers);
        let ghost hs = rest@;
        let n = rest.len();
        let mut out: Vec<Effect> = Vec::new();
        let mut k: usize = 0;
        while k < n
            invariant
                n == hs.len(),
                k <= n,
                rest@ == hs.subrange(k as int, n as int),
                self.handlers@ == handled_all(hs.subrange(0, k as int), m@),
                views(out@) == fan_out_effects(hs.subrange(0, k as int), m@),
            decreases n - k,
        {
            let mut h = rest.remove(0);
            let mut es = h.handle(m.duplicate());
            let ghost before = out@;
            out.append(&mut es);
            self.handlers.push(h);
            proof {
                let next = hs.subrange(0, k + 1);
                assert(next.drop_last() =~= hs.subrange(0, k as int));
                assert(next.last() == hs[k as int]);
                assert(views(out@) =~= views(before) + hs[k as int].handle_effects(m@));
                assert(self.handlers@ =~= handled_all(next, m@));
            }
            k = k + 1;
        }
        proof {
            assert(hs.subrange(0, n as int) =~= hs);
        }
        out
    }

    /// Finalises every handler, in order.
    pub fn finish(&mut self) -> (r: Vec<Effect>)
        ensures
            final(self).handlers@ == finished_all(old(self).handlers@),
            views(r@) == finish_all_effects(old(self).handlers@),
    {
        let mut rest: Vec<Handler> = Vec::new();
        std::mem::swap(&mut rest, &mut self.handlers);
        let ghost hs = rest@;
        let n = rest.len();
        let mut out: Vec<Effect> = Vec::new();
        let mut k: usize = 0;
        while k < n
            invariant
                n == hs.len(),
                k <= n,
                rest@ == hs.subrange(k as int, n as int),
                self.handlers@ == finished_all(hs.subrange(0, k as int)),
                views(out@) == finish_all_effects(hs.subrange(0, k as int)),
            decreases n - k,
        {
            let mut h = rest.remove(0);
            let mut es = h.finish();
            let ghost before = out@;
            out.append(&mut es);
            self.handlers.push(h);
            proof {
                let next = hs.subrange(0, k + 1);
                assert(next.drop_last() =~= hs.subrange(0, k as int));
                assert(next.last() == hs[k as int]);
                assert(views(out@) =~= views(before) + hs[k as int].finish_effects());
                assert(self.handlers@ =~= finished_all(next));
            }
            k = k + 1;
        }
        proof {
            assert(hs.subrange(0, n as int) =~= hs);
        }
        out
    }
}

} // verus!
