//! The events that flow from the reporter to the writer.
use vstd::prelude::*;

verus! {

/// A lifecycle step of the reporting program.
#[derive(Debug)]
pub enum Event {
    Installing,
    Updating(String),
}

/// How far along the work is: `current` out of `max`.
///
/// `current <= max` is a convention of producers; nothing here relies on it.
#[derive(Clone, Copy, Debug, PartialEq, Eq, Structural)]
pub struct Progression {
    pub max: u64,
    pub current: u64,
}

/// One reported unit of progress or status.
#[derive(Debug)]
pub enum Message {
    Event(Event),
    CurrentStatus(String),
    Progression(Progression),
}

/// The acknowledgement that the writer has drained every event and finished
/// every handler.
#[derive(Debug)]
pub struct Disconnect;

/// The mathematical value of an [`Event`].
pub enum EventView {
    Installing,
    Updating(Seq<char>),
}

/// The mathematical value of a [`Message`].
pub enum MessageView {
    Event(EventView),
    CurrentStatus(Seq<char>),
    Progression(Progression),
}

impl View for Event {
    type V = EventView;

    open spec fn view(&self) -> EventView {
        match self {
            Event::Installing => EventView::Installing,
            Event::Updating(s) => EventView::Updating(s@),
        }
    }
}

impl View for Message {
    type V = MessageView;

    open spec fn view(&self) -> MessageView {
        match self {
            Message::Event(e) => MessageView::Event(e@),
            Message::CurrentStatus(s) => MessageView::CurrentStatus(s@),
            Message::Progression(p) => MessageView::Progression(*p),
        }
    }
}

impl Event {
    /// A copy of this event with the same value.
    pub fn duplicate(&self) -> (r: Event)
        ensures
            r@ == self@,
    {
        match self {
            Event::Installing => Event::Installing,
            Event::Updating(s) => Event::Updating(s.clone()),
        }
    }
}

impl Message {
    /// A copy of this message with the same value, one for each handler that
    /// receives it.
    pub fn duplicate(&self) -> (r: Message)
        ensures
            r@ == self@,
    {
        match self {
            Message::Event(e) => Message::Event(e.duplicate()),
            Message::CurrentStatus(s) => Message::CurrentStatus(s.clone()),
            Message::Progression(p) => Message::Progression(*p),
        }
    }
}

} // verus!
