//! Handlers: the consumers that render or record each event and finalise on
//! shutdown, and the combinator that fans one event stream out to several.
//!
//! A handler decides; it does not perform I/O. Each call returns the effects
//! to carry out, in order, on the handler's output (a line on the diagnostic
//! stream, a change to a progress indicator).
use vstd::prelude::*;
use vstd::string::StringExecFns;
use crate::encode::{decimal, decimal_string, encode_line, line_of};
use crate::message::{Message, MessageView};

verus! {

/// One thing for the host to carry out on behalf of a handler or the writer.
#[derive(Debug, PartialEq, Eq)]
pub enum Effect {
    /// Write this newline-terminated record to the diagnostic stream and flush.
    WriteLine(String),
    /// Print this line above the progress indicator.
    PrintLine(String),
    /// Pause to stand for the work that a lifecycle step takes.
    Pause,
    /// Show this message beside the progress indicator.
    SetMessage(String),
    /// Set the indicator's length.
    SetLength(u64),
    /// Set the indicator's position.
    SetPosition(u64),
    /// Close the progress indicator.
    FinishBar,
    /// Send the acknowledgement to the reporter.
    Acknowledge,
}

/// The mathematical value of an [`Effect`].
pub enum EffectView {
    WriteLine(Seq<char>),
    PrintLine(Seq<char>),
    Pause,
    SetMessage(Seq<char>),
    SetLength(u64),
    SetPosition(u64),
    FinishBar,
    Acknowledge,
}

impl View for Effect {
    type V = EffectView;

    open spec fn view(&self) -> EffectView {
        match self {
            Effect::WriteLine(s) => EffectView::WriteLine(s@),
            Effect::PrintLine(s) => EffectView::PrintLine(s@),
            Effect::Pause => EffectView::Pause,
            Effect::SetMessage(s) => EffectView::SetMessage(s@),
            Effect::SetLength(n) => EffectView::SetLength(*n),
            Effect::SetPosition(n) => EffectView::SetPosition(*n),
            Effect::FinishBar => EffectView::FinishBar,
            Effect::Acknowledge => EffectView::Acknowledge,
        }
    }
}

/// The values of a sequence of effects.
pub open spec fn views(s: Seq<Effect>) -> Seq<EffectView> {
    s.map_values(|e: Effect| e@)
}

/// The message shown for a lifecycle event at position `position`.
pub open spec fn event_label(position: u64) -> Seq<char> {
    "Event ("@ + decimal(position as nat) + ")"@
}

/// Records every event as one JSON line on the diagnostic stream.
pub struct JsonHandler {
    pub finished: bool,
    /// The events handled so far, in order.
    pub seen: Ghost<Seq<MessageView>>,
}

/// Keeps a progress indicator's position and length, and renders each event
/// on it.
pub struct ProgressHandler {
    pub position: u64,
    pub length: u64,
    pub finished: bool,
    /// The events handled so far, in order.
    pub seen: Ghost<Seq<MessageView>>,
}

/// The handlers that the writer can drive.
pub enum Handler {
    Json(JsonHandler),
    Progress(ProgressHandler),
}

impl JsonHandler {
    pub fn new() -> (r: JsonHandler)
        ensures
            !r.finished,
            r.seen@ == Seq::<MessageView>::empty(),
    {
        JsonHandler { finished: false, seen: Ghost(Seq::empty()) }
    }
}

impl ProgressHandler {
    /// A handler whose indicator starts at position 0 out of `length`.
    pub fn new(length: u64) -> (r: ProgressHandler)
        ensures
            r.position == 0,
            r.length == length,
            !r.finished,
            r.seen@ == Seq::<MessageView>::empty(),
    {
        ProgressHandler { position: 0, length, finished: false, seen: Ghost(Seq::empty()) }
    }

    pub fn position(&self) -> (r: u64)
        ensures
            r == self.position,
    {
        self.position
    }

    pub fn length(&self) -> (r: u64)
        ensures
            r == self.length,
    {
        self.length
    }

    pub fn is_finished(&self) -> (r: bool)
        ensures
            r == self.finished,
    {
        self.finished
    }
}

impl Handler {
    /// The events this handler has handled, in order.
    pub open spec fn seen(self) -> Seq<MessageView> {
        match self {
            Handler::Json(h) => h.seen@,
            Handler::Progress(h) => h.seen@,
        }
    }

    /// Whether this handler has been finalised.
    pub open spec fn finished(self) -> bool {
        match self {
            Handler::Json(h) => h.finished,
            Handler::Progress(h) => h.finished,
        }
    }

    /// The handler after it handled `m`.
    pub open spec fn after_handle(self, m: MessageView) -> Handler {
        match self {
            Handler::Json(h) => Handler::Json(
                JsonHandler { finished: h.finished, seen: Ghost(h.seen@.push(m)) },
            ),
            Handler::Progress(h) => Handler::Progress(
                match m {
                    MessageView::Progression(p) => ProgressHandler {
                        position: p.current,
                        length: p.max,
                        finished: h.finished,
                        seen: Ghost(h.seen@.push(m)),
                    },
                    _ => ProgressHandler {
                        position: h.position,
                        length: h.length,
                        finished: h.finished,
                        seen: Ghost(h.seen@.push(m)),
                    },
                },
            ),
        }
    }

    /// What handling `m` asks the host to carry out.
    pub open spec fn handle_effects(self, m: MessageView) -> Seq<EffectView> {
        match self {
            Handler::Json(h) => seq![EffectView::WriteLine(line_of(m))],
            Handler::Progress(h) => match m {
                MessageView::Event(_) => seq![
                    EffectView::Pause,
                    EffectView::SetMessage(event_label(h.position)),
                ],
                MessageView::CurrentStatus(s) => seq![EffectView::PrintLine(s)],
                MessageView::Progression(p) => seq![
                    EffectView::SetLength(p.max),
                    EffectView::SetPosition(p.current),
                ],
            },
        }
    }

    /// The handler after it was finalised.
    pub open spec fn after_finish(self) -> Handler {
        match self {
            Handler::Json(h) => Handler::Json(JsonHandler { finished: true, seen: h.seen }),
            Handler::Progress(h) => Handler::Progress(
                ProgressHandler {
                    position: h.position,
                    length: h.length,
                    finished: true,
                    seen: h.seen,
                },
            ),
        }
    }

    /// What finalising asks the host to carry out.
    pub open spec fn finish_effects(self) -> Seq<EffectView> {
        match self {
            Handler::Json(_) => seq![],
            Handler::Progress(_) => seq![EffectView::FinishBar],
        }
    }

    /// Renders or records one event.
    pub fn handle(&mut self, m: Message) -> (r: Vec<Effect>)
        ensures
            *final(self) == old(self).after_handle(m@),
            views(r@) == old(self).handle_effects(m@),
    {
        let mut out: Vec<Effect> = Vec::new();
        match self {
            Handler::Json(h) => {
                out.push(Effect::WriteLine(encode_line(&m)));
                h.seen = Ghost(h.seen@.push(m@));
            },
            Handler::Progress(h) => {
                match m {
                    Message::Event(_) => {
                        let mut label = String::new();
                        label.append("Event (");
                        let pos = decimal_string(h.position);
                        label.append(pos.as_str());
                        label.append(")");
                        out.push(Effect::Pause);
                        out.push(Effect::SetMessage(label));
                    },
                    Message::CurrentStatus(s) => {
                        out.push(Effect::PrintLine(s));
                    },
                    Message::Progression(p) => {
                        h.length = p.max;
                        h.position = p.current;
                        out.push(Effect::SetLength(p.max));
                        out.push(Effect::SetPosition(p.current));
                    },
                }
                h.seen = Ghost(h.seen@.push(m@));
            },
        }
        proof {
            assert(views(out@) =~= old(self).handle_effects(m@));
        }
        out
    }

    /// Finalises the handler.
    pub fn finish(&mut self) -> (r: Vec<Effect>)
        ensures
            *final(self) == old(self).after_finish(),
            views(r@) == old(self).finish_effects(),
    {
        let mut out: Vec<Effect> = Vec::new();
        match self {
            Handler::Json(h) => {
                h.finished = true;
            },
            Handler::Progress(h) => {
                h.finished = true;
                out.push(Effect::FinishBar);
            },
        }
        proof {
            assert(views(out@) =~= old(self).finish_effects());
        }
        out
    }
}

} // verus!
