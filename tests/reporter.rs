use std::sync::mpsc;

use event_reporter::message::{Disconnect, Message};
use event_reporter::reporter::{ReportError, Reporter};
use event_reporter::writer::Writer;
use event_reporter::fanout::MultiHandler;
use event_reporter::handler::{Effect, Handler, JsonHandler};

#[test]
fn report_after_writer_gone_is_disconnected() {
    let (sender, receiver) = mpsc::channel::<Message>();
    let (_ack_sender, ack_receiver) = mpsc::channel::<Disconnect>();
    let mut reporter = Reporter::setup(sender, ack_receiver);
    assert_eq!(reporter.report_event(Message::CurrentStatus("a".to_string())), Ok(()));
    drop(receiver);
    assert_eq!(
        reporter.report_event(Message::CurrentStatus("b".to_string())),
        Err(ReportError::Disconnected)
    );
}

#[test]
fn disconnect_without_acknowledgement_fails() {
    let (sender, _receiver) = mpsc::channel::<Message>();
    let (ack_sender, ack_receiver) = mpsc::channel::<Disconnect>();
    drop(ack_sender);
    let reporter = Reporter::setup(sender, ack_receiver);
    assert!(matches!(
        reporter.disconnect(),
        Err(ReportError::AcknowledgementLost)
    ));
}

#[test]
fn disconnect_returns_after_writer_acknowledges() {
    let (sender, receiver) = mpsc::channel::<Message>();
    let (ack_sender, ack_receiver) = mpsc::channel::<Disconnect>();
    let mut reporter = Reporter::setup(sender, ack_receiver);
    let mut writer = Writer::setup(MultiHandler::new().push(Handler::Json(JsonHandler::new())));

    for s in ["one", "two"] {
        assert_eq!(reporter.report_event(Message::CurrentStatus(s.to_string())), Ok(()));
    }
    let mut lines = Vec::new();
    while let Ok(m) = receiver.try_recv() {
        lines.extend(writer.step(Some(m)));
    }
    let closing = writer.step(None);
    assert_eq!(closing, vec![Effect::Acknowledge]);
    ack_sender.send(Disconnect).unwrap();

    assert!(reporter.disconnect().is_ok());
    assert_eq!(
        lines,
        vec![
            Effect::WriteLine("{\"CurrentStatus\":\"one\"}\n".to_string()),
            Effect::WriteLine("{\"CurrentStatus\":\"two\"}\n".to_string()),
        ]
    );
    assert!(receiver.try_recv().is_err());
}

#[test]
fn report_outcome_maps_each_send_result() {
    assert_eq!(event_reporter::reporter::report_outcome(Ok(())), Ok(()));
    let failed = Err(mpsc::SendError(Message::CurrentStatus("x".to_string())));
    assert_eq!(
        event_reporter::reporter::report_outcome(failed),
        Err(ReportError::Disconnected)
    );
}

#[test]
fn disconnect_outcome_maps_each_receive_result() {
    assert!(event_reporter::reporter::disconnect_outcome(Ok(Disconnect)).is_ok());
    assert!(matches!(
        event_reporter::reporter::disconnect_outcome(Err(mpsc::RecvError)),
        Err(ReportError::AcknowledgementLost)
    ));
}
