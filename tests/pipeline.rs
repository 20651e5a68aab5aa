use event_reporter::fanout::MultiHandler;
use event_reporter::handler::{Effect, Handler, JsonHandler, ProgressHandler};
use event_reporter::message::{Event, Message, Progression};
use event_reporter::writer::{Writer, WriterState};

fn status(s: &str) -> Message {
    Message::CurrentStatus(s.to_string())
}

fn progress(current: u64, max: u64) -> Message {
    Message::Progression(Progression { max, current })
}

fn json_and_progress() -> Writer {
    let multi = MultiHandler::new()
        .push(Handler::Json(JsonHandler::new()))
        .push(Handler::Progress(ProgressHandler::new(10)));
    Writer::setup(multi)
}

fn written_lines(effects: &[Effect]) -> Vec<String> {
    let mut lines = Vec::new();
    for e in effects {
        if let Effect::WriteLine(s) = e {
            lines.push(s.clone());
        }
    }
    lines
}

fn progress_of(w: &Writer, index: usize) -> (u64, u64, bool) {
    match w.handler().handler(index) {
        Handler::Progress(p) => (p.position(), p.length(), p.is_finished()),
        Handler::Json(_) => panic!("not a progress handler"),
    }
}

fn is_finished(h: &Handler) -> bool {
    match h {
        Handler::Json(j) => j.finished,
        Handler::Progress(p) => p.is_finished(),
    }
}

#[test]
fn four_records_and_final_position() {
    let mut w = json_and_progress();
    let mut effects = Vec::new();
    for m in [status("a"), progress(1, 10), status("b"), progress(10, 10)] {
        effects.extend(w.step(Some(m)));
    }
    effects.extend(w.step(None));
    assert_eq!(
        written_lines(&effects),
        vec![
            "{\"CurrentStatus\":\"a\"}\n".to_string(),
            "{\"Progression\":{\"max\":10,\"current\":1}}\n".to_string(),
            "{\"CurrentStatus\":\"b\"}\n".to_string(),
            "{\"Progression\":{\"max\":10,\"current\":10}}\n".to_string(),
        ]
    );
    assert_eq!(progress_of(&w, 1), (10, 10, true));
    assert_eq!(effects.last(), Some(&Effect::Acknowledge));
}

#[test]
fn zero_handlers_still_acknowledge() {
    let mut w = Writer::setup(MultiHandler::new());
    assert!(w.is_running());
    assert_eq!(w.step(None), vec![Effect::Acknowledge]);
    assert!(!w.is_running());
    assert_eq!(w.state(), WriterState::Terminated);
}

#[test]
fn second_close_is_a_no_op() {
    let mut w = json_and_progress();
    let first = w.step(None);
    assert_eq!(first, vec![Effect::FinishBar, Effect::Acknowledge]);
    assert!(w.step(None).is_empty());
    assert!(!w.is_running());
}

#[test]
fn events_after_shutdown_have_no_effect() {
    let mut w = json_and_progress();
    w.step(Some(progress(3, 10)));
    w.step(None);
    assert!(w.step(Some(progress(7, 10))).is_empty());
    assert!(w.step(Some(status("late"))).is_empty());
    assert_eq!(progress_of(&w, 1), (3, 10, true));
}

#[test]
fn every_handler_sees_every_event_in_order() {
    let multi = MultiHandler::new()
        .push(Handler::Json(JsonHandler::new()))
        .push(Handler::Json(JsonHandler::new()));
    let mut w = Writer::setup(multi);
    let mut effects = Vec::new();
    for m in [status("x"), progress(2, 4), Message::Event(Event::Installing)] {
        effects.extend(w.step(Some(m)));
    }
    effects.extend(w.step(None));
    let x = "{\"CurrentStatus\":\"x\"}\n".to_string();
    let p = "{\"Progression\":{\"max\":4,\"current\":2}}\n".to_string();
    let i = "{\"Event\":\"Installing\"}\n".to_string();
    assert_eq!(
        written_lines(&effects),
        vec![x.clone(), x, p.clone(), p, i.clone(), i]
    );
    assert_eq!(effects.iter().filter(|e| **e == Effect::Acknowledge).count(), 1);
}

#[test]
fn finish_precedes_acknowledgement() {
    let multi = MultiHandler::new()
        .push(Handler::Progress(ProgressHandler::new(5)))
        .push(Handler::Json(JsonHandler::new()))
        .push(Handler::Progress(ProgressHandler::new(8)));
    let mut w = Writer::setup(multi);
    w.step(Some(status("s")));
    let effects = w.step(None);
    assert_eq!(
        effects,
        vec![Effect::FinishBar, Effect::FinishBar, Effect::Acknowledge]
    );
    for k in 0..w.handler().len() {
        assert!(is_finished(w.handler().handler(k)));
    }
}

#[test]
fn fan_out_follows_registration_order() {
    let mut w = json_and_progress();
    let effects = w.step(Some(status("hello")));
    assert_eq!(
        effects,
        vec![
            Effect::WriteLine("{\"CurrentStatus\":\"hello\"}\n".to_string()),
            Effect::PrintLine("hello".to_string()),
        ]
    );

    let reversed = MultiHandler::new()
        .push(Handler::Progress(ProgressHandler::new(10)))
        .push(Handler::Json(JsonHandler::new()));
    let mut w = Writer::setup(reversed);
    let effects = w.step(Some(status("hello")));
    assert_eq!(
        effects,
        vec![
            Effect::PrintLine("hello".to_string()),
            Effect::WriteLine("{\"CurrentStatus\":\"hello\"}\n".to_string()),
        ]
    );
}

#[test]
fn lifecycle_event_pauses_and_labels_position() {
    let mut h = Handler::Progress(ProgressHandler::new(10));
    h.handle(progress(5, 10));
    let effects = h.handle(Message::Event(Event::Updating("dep".to_string())));
    assert_eq!(
        effects,
        vec![Effect::Pause, Effect::SetMessage("Event (5)".to_string())]
    );
}

#[test]
fn progression_sets_length_then_position() {
    let mut h = Handler::Progress(ProgressHandler::new(10));
    let effects = h.handle(progress(12, 7));
    assert_eq!(effects, vec![Effect::SetLength(7), Effect::SetPosition(12)]);
    match h {
        Handler::Progress(p) => {
            assert_eq!(p.position(), 12);
            assert_eq!(p.length(), 7);
            assert!(!p.is_finished());
        }
        Handler::Json(_) => panic!("not a progress handler"),
    }
}

#[test]
fn new_progress_handler_starts_at_zero() {
    let p = ProgressHandler::new(10);
    assert_eq!((p.position(), p.length(), p.is_finished()), (0, 10, false));
}

#[test]
fn json_finish_has_no_effect() {
    let mut h = Handler::Json(JsonHandler::new());
    assert!(h.finish().is_empty());
    assert!(is_finished(&h));
}

#[test]
fn duplicate_keeps_the_value() {
    let m = Message::Event(Event::Updating("x".to_string()));
    match m.duplicate() {
        Message::Event(Event::Updating(s)) => assert_eq!(s, "x"),
        _ => panic!("wrong variant"),
    }
}
